use stm32_tasks::command::{parse_command, Command};
use stm32_tasks::console::{execute, process_command, Console, ConsoleOutput, DEFAULT_LED1_PERIOD_MS};
use stm32_tasks::encoder::{Direction, EncoderData};
use stm32_tasks::stats::SystemStatistics;
use stm32_tasks::text::push_decimal;

fn type_line(c: &mut Console, s: &mut SystemStatistics, e: &EncoderData, line: &str) -> String {
    for b in line.bytes() {
        c.feed(b, s, e);
    }
    match c.feed(b'\r', s, e) {
        ConsoleOutput::Text(t) => t,
        _ => panic!("a line end must answer with text"),
    }
}

fn sample_stats() -> SystemStatistics {
    let mut s = SystemStatistics::new();
    s.uptime_ms = 61_000;
    s.task_count = 4;
    s.button_presses = 3;
    s.led1_blinks = 150;
    s.led2_blinks = 30;
    s.adc_samples = 122_000;
    s.weighted_position = 3500;
    s
}

#[test]
fn decimal_rendering() {
    let mut out = String::new();
    push_decimal(&mut out, 0);
    assert_eq!(out, "0");
    let mut out = String::from("x=");
    push_decimal(&mut out, 1_234_567_890);
    assert_eq!(out, "x=1234567890");
    let mut out = String::new();
    push_decimal(&mut out, u64::MAX);
    assert_eq!(out, "18446744073709551615");
}

#[test]
fn command_words_are_recognised() {
    assert_eq!(parse_command("help"), Command::Help);
    assert_eq!(parse_command("status"), Command::Status);
    assert_eq!(parse_command("  status "), Command::Status);
    assert_eq!(parse_command("tasks"), Command::Tasks);
    assert_eq!(parse_command("heap"), Command::Heap);
    assert_eq!(parse_command("runtime"), Command::Runtime);
    assert_eq!(parse_command("realtime"), Command::Realtime);
    assert_eq!(parse_command("reset"), Command::Reset);
    assert_eq!(parse_command("Status"), Command::NotFound);
    assert_eq!(parse_command("statusx"), Command::NotFound);
    assert_eq!(parse_command(""), Command::NotFound);
}

#[test]
fn led1_argument_parsing() {
    assert_eq!(parse_command("led1=250"), Command::SetLed1Period(250));
    assert_eq!(parse_command("led1= 42 "), Command::SetLed1Period(42));
    assert_eq!(parse_command("led1=+7"), Command::SetLed1Period(7));
    assert_eq!(parse_command("led1=4294967295"), Command::SetLed1Period(u32::MAX));
    assert_eq!(parse_command("led1=4294967296"), Command::InvalidLed1Period);
    assert_eq!(parse_command("led1=abc"), Command::InvalidLed1Period);
    assert_eq!(parse_command("led1="), Command::InvalidLed1Period);
    assert_eq!(parse_command("led1=+"), Command::InvalidLed1Period);
    assert_eq!(parse_command("led1=-3"), Command::InvalidLed1Period);
    assert_eq!(parse_command("led1=12a"), Command::InvalidLed1Period);
    assert_eq!(parse_command(" led1=5"), Command::NotFound);
}

#[test]
fn status_reports_the_snapshot_in_decimal() {
    let mut s = sample_stats();
    let e = EncoderData::new();
    let mut c = Console::new();
    let out = type_line(&mut c, &mut s, &e, "status");
    assert_eq!(
        out,
        "\n=== Status do Sistema ===\r\nUptime: 61000 ms\r\nTarefas ativas: 4\r\nBotão pressionado: 3 vezes\r\nLED1 piscou: 150 vezes\r\nLED2 piscou: 30 vezes\r\nADC Samples: 122000 vezes\r\nPosição do peso: 3500\r\n\r\n> "
    );
    assert_eq!(s, sample_stats());
}

#[test]
fn reset_then_status_shows_cleared_counters() {
    let mut s = sample_stats();
    let e = EncoderData::new();
    let mut c = Console::new();
    let out = type_line(&mut c, &mut s, &e, "reset");
    assert_eq!(out, "\nEstatísticas resetadas!\r\n\r\n> ");
    let out = type_line(&mut c, &mut s, &e, "status");
    assert!(out.contains("Uptime: 61000 ms\r\n"));
    assert!(out.contains("Botão pressionado: 0 vezes\r\n"));
    assert!(out.contains("LED1 piscou: 0 vezes\r\n"));
    assert!(out.contains("LED2 piscou: 0 vezes\r\n"));
    assert!(out.contains("ADC Samples: 122000 vezes\r\n"));
}

#[test]
fn led1_command_sets_the_period() {
    let mut s = sample_stats();
    let e = EncoderData::new();
    let mut c = Console::new();
    assert_eq!(c.led1_period_ms, DEFAULT_LED1_PERIOD_MS);
    let out = type_line(&mut c, &mut s, &e, "led1=250");
    assert_eq!(out, "Velocidade do LED1 ajustada para 250 ms\r\n\r\n> ");
    assert_eq!(c.led1_period_ms, 250);
    assert_eq!(c.line.as_str(), "");
}

#[test]
fn led1_command_with_bad_value_keeps_the_period() {
    let mut s = sample_stats();
    let e = EncoderData::new();
    let mut c = Console::new();
    type_line(&mut c, &mut s, &e, "led1=250");
    let out = type_line(&mut c, &mut s, &e, "led1=abc");
    assert_eq!(out, "Valor inválido!\r\n\r\n> ");
    assert_eq!(c.led1_period_ms, 250);
}

#[test]
fn unknown_command_answer() {
    let mut s = sample_stats();
    let e = EncoderData::new();
    let mut c = Console::new();
    let out = type_line(&mut c, &mut s, &e, "foo");
    assert_eq!(out, "Comando não encontrado. Digite 'help' para ajuda.\r\n\r\n> ");
}

#[test]
fn empty_line_answers_with_the_prompt_only() {
    let mut s = sample_stats();
    let e = EncoderData::new();
    let mut c = Console::new();
    match c.feed(b'\n', &mut s, &e) {
        ConsoleOutput::Text(t) => assert_eq!(t, "\r\n> "),
        _ => panic!("expected the prompt"),
    }
}

#[test]
fn backspace_on_empty_line_does_nothing() {
    let mut s = sample_stats();
    let e = EncoderData::new();
    let mut c = Console::new();
    assert!(matches!(c.feed(0x08, &mut s, &e), ConsoleOutput::Nothing));
    assert!(matches!(c.feed(0x7f, &mut s, &e), ConsoleOutput::Nothing));
    assert_eq!(c.line.as_str(), "");
    let out = type_line(&mut c, &mut s, &e, "help");
    assert!(out.starts_with("\n=== Comandos do Sistema ===\n"));
}

#[test]
fn backspace_erases_the_last_character() {
    let mut s = sample_stats();
    let e = EncoderData::new();
    let mut c = Console::new();
    assert!(matches!(c.feed(b's', &mut s, &e), ConsoleOutput::Echo(b's')));
    c.feed(b'x', &mut s, &e);
    match c.feed(0x7f, &mut s, &e) {
        ConsoleOutput::Text(t) => assert_eq!(t, "\x08 \x08"),
        _ => panic!("expected the erase sequence"),
    }
    assert_eq!(c.line.as_str(), "s");
    let out = type_line(&mut c, &mut s, &e, "tatus");
    assert!(out.starts_with("\n=== Status do Sistema ===\r\n"));
}

#[test]
fn characters_past_capacity_are_dropped() {
    let mut s = sample_stats();
    let e = EncoderData::new();
    let mut c = Console::new();
    for _ in 0..64 {
        assert!(matches!(c.feed(b'a', &mut s, &e), ConsoleOutput::Echo(b'a')));
    }
    assert!(matches!(c.feed(b'b', &mut s, &e), ConsoleOutput::Nothing));
    assert_eq!(c.line.len(), 64);
    assert!(!c.line.as_str().contains('b'));
}

#[test]
fn control_bytes_are_ignored() {
    let mut s = sample_stats();
    let e = EncoderData::new();
    let mut c = Console::new();
    assert!(matches!(c.feed(0x1b, &mut s, &e), ConsoleOutput::Nothing));
    assert!(matches!(c.feed(0xc3, &mut s, &e), ConsoleOutput::Nothing));
    assert_eq!(c.line.as_str(), "");
}

#[test]
fn runtime_floors_uptime_at_one_second() {
    let mut s = SystemStatistics::new();
    s.led1_blinks = 2;
    s.led2_blinks = 1;
    s.adc_samples = 500;
    let mut period = 0u32;
    let out = execute(Command::Runtime, &mut s, &EncoderData::new(), &mut period);
    assert_eq!(
        out,
        "\n=== Tempo de Execução ===\r\nUptime: 1 s\r\nLED1: 120 piscadas/min\r\nLED2: 60 piscadas/min\r\nADC: 500 amostras/s\r\n"
    );
}

#[test]
fn runtime_rates_per_minute() {
    let mut s = sample_stats();
    let mut period = 0u32;
    let out = process_command("runtime", &mut s, &EncoderData::new(), &mut period);
    assert!(out.contains("Uptime: 61 s\r\n"));
    assert!(out.contains("LED1: 147 piscadas/min\r\n"));
    assert!(out.contains("LED2: 29 piscadas/min\r\n"));
    assert!(out.contains("ADC: 2000 amostras/s\r\n"));
}

#[test]
fn realtime_reports_the_encoder() {
    let mut s = sample_stats();
    let e = EncoderData { count: 42, direction: Direction::Forward, last_timestamp: 0, rpm: 120 };
    let mut period = 0u32;
    let out = process_command("realtime", &mut s, &e, &mut period);
    assert_eq!(
        out,
        "\n=== Tempo Real ===\r\nEncoder: 42 pulsos\r\nDireção: Frente\r\nRPM: 120\r\nPosição do peso: 3500\r\n"
    );
}

#[test]
fn tasks_and_heap_answers() {
    let mut s = sample_stats();
    let mut period = 7u32;
    let e = EncoderData::new();
    assert_eq!(
        process_command("tasks", &mut s, &e, &mut period),
        "\n=== Tarefas ===\r\nTarefas ativas: 4\r\n"
    );
    assert!(process_command("heap", &mut s, &e, &mut period).starts_with("\n=== Memória ===\r\n"));
    assert_eq!(period, 7);
}
