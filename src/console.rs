use vstd::prelude::*;
use vstd::string::*;
use crate::command::{command_of, is_whitespace, lead_end, parse_command, trail_end, trim, Command};
use crate::encoder::{Direction, EncoderData};
use crate::line_buffer::{
    all_ascii, line_as_str, line_chars, line_clear, line_new, line_pop, line_push, LINE_CAPACITY,
};
use crate::stats::SystemStatistics;
use crate::text::{decimal, push_decimal};

verus! {

/// LED1 blink period in effect until the console sets another.
pub const DEFAULT_LED1_PERIOD_MS: u32 = 200;

/// Written after each handled line.
pub open spec fn prompt() -> Seq<char> {
    "\r\n> "@
}

/// Written when a character is erased from the line.
pub open spec fn erase_sequence() -> Seq<char> {
    "\x08 \x08"@
}

pub open spec fn help_text() -> Seq<char> {
    "\n=== Comandos do Sistema ===\nstatus\n\rtasks\n\rheap\n\rruntime\n\rrealtime\n\rreset\n\rhelp\n\rled1=n (n velocidade desejada em ms)\n\r"@
}

pub open spec fn status_text(s: SystemStatistics) -> Seq<char> {
    "\n=== Status do Sistema ===\r\nUptime: "@ + decimal(s.uptime_ms as nat)
        + " ms\r\nTarefas ativas: "@ + decimal(s.task_count as nat)
        + "\r\nBotão pressionado: "@ + decimal(s.button_presses as nat)
        + " vezes\r\nLED1 piscou: "@ + decimal(s.led1_blinks as nat)
        + " vezes\r\nLED2 piscou: "@ + decimal(s.led2_blinks as nat)
        + " vezes\r\nADC Samples: "@ + decimal(s.adc_samples as nat)
        + " vezes\r\nPosição do peso: "@ + decimal(s.weighted_position as nat) + "\r\n"@
}

pub open spec fn tasks_text(s: SystemStatistics) -> Seq<char> {
    "\n=== Tarefas ===\r\nTarefas ativas: "@ + decimal(s.task_count as nat) + "\r\n"@
}

pub open spec fn heap_text() -> Seq<char> {
    "\n=== Memória ===\r\nSem heap: todos os buffers têm tamanho fixo\r\n"@
}

/// Uptime in whole seconds, at least 1 so that rates never divide by zero.
pub open spec fn uptime_secs(s: SystemStatistics) -> nat {
    if s.uptime_ms / 1000 == 0 {
        1
    } else {
        (s.uptime_ms / 1000) as nat
    }
}

pub open spec fn runtime_text(s: SystemStatistics) -> Seq<char> {
    let secs = uptime_secs(s);
    "\n=== Tempo de Execução ===\r\nUptime: "@ + decimal(secs)
        + " s\r\nLED1: "@ + decimal(s.led1_blinks as nat * 60 / secs)
        + " piscadas/min\r\nLED2: "@ + decimal(s.led2_blinks as nat * 60 / secs)
        + " piscadas/min\r\nADC: "@ + decimal(s.adc_samples as nat / secs) + " amostras/s\r\n"@
}

pub open spec fn direction_name(d: Direction) -> Seq<char> {
    match d {
        Direction::Forward => "Frente"@,
        Direction::Reverse => "Ré"@,
        Direction::Unknown => "Desconhecida"@,
    }
}

pub open spec fn realtime_text(s: SystemStatistics, e: EncoderData) -> Seq<char> {
    "\n=== Tempo Real ===\r\nEncoder: "@ + decimal(e.count as nat) + " pulsos\r\nDireção: "@
        + direction_name(e.direction) + "\r\nRPM: "@ + decimal(e.rpm as nat)
        + "\r\nPosição do peso: "@ + decimal(s.weighted_position as nat) + "\r\n"@
}

pub open spec fn reset_text() -> Seq<char> {
    "\nEstatísticas resetadas!\r\n"@
}

pub open spec fn led1_set_text(v: u32) -> Seq<char> {
    "Velocidade do LED1 ajustada para "@ + decimal(v as nat) + " ms\r\n"@
}

pub open spec fn invalid_value_text() -> Seq<char> {
    "Valor inválido!\r\n"@
}

pub open spec fn not_found_text() -> Seq<char> {
    "Comando não encontrado. Digite 'help' para ajuda.\r\n"@
}

/// What a command answers, given the statistics and encoder state before it runs.
pub open spec fn response_of(c: Command, s: SystemStatistics, e: EncoderData) -> Seq<char> {
    match c {
        Command::Help => help_text(),
        Command::Status => status_text(s),
        Command::Tasks => tasks_text(s),
        Command::Heap => heap_text(),
        Command::Runtime => runtime_text(s),
        Command::Realtime => realtime_text(s, e),
        Command::Reset => reset_text(),
        Command::SetLed1Period(v) => led1_set_text(v),
        Command::InvalidLed1Period => invalid_value_text(),
        Command::NotFound => not_found_text(),
    }
}

/// Statistics after a command: `reset` clears the button and LED counters,
/// every other command leaves them as they were.
pub open spec fn stats_after(c: Command, s: SystemStatistics) -> SystemStatistics {
    match c {
        Command::Reset => SystemStatistics { button_presses: 0, led1_blinks: 0, led2_blinks: 0, ..s },
        _ => s,
    }
}

/// LED1 period after a command: only a valid `led1=` changes it.
pub open spec fn led1_period_after(c: Command, period: u32) -> u32 {
    match c {
        Command::SetLed1Period(v) => v,
        _ => period,
    }
}

fn direction_label(d: Direction) -> (r: &'static str)
    ensures
        r@ == direction_name(d),
{
    match d {
        Direction::Forward => "Frente",
        Direction::Reverse => "Ré",
        Direction::Unknown => "Desconhecida",
    }
}

fn status_response(s: &SystemStatistics) -> (r: String)
    ensures
        r@ == status_text(*s),
{
    let mut r = String::new();
    r.append("\n=== Status do Sistema ===\r\nUptime: ");
    push_decimal(&mut r, s.uptime_ms);
    r.append(" ms\r\nTarefas ativas: ");
    push_decimal(&mut r, s.task_count as u64);
    r.append("\r\nBotão pressionado: ");
    push_decimal(&mut r, s.button_presses as u64);
    r.append(" vezes\r\nLED1 piscou: ");
    push_decimal(&mut r, s.led1_blinks as u64);
    r.append(" vezes\r\nLED2 piscou: ");
    push_decimal(&mut r, s.led2_blinks as u64);
    r.append(" vezes\r\nADC Samples: ");
    push_decimal(&mut r, s.adc_samples as u64);
    r.append(" vezes\r\nPosição do peso: ");
    push_decimal(&mut r, s.weighted_position as u64);
    r.append("\r\n");
    r
}

fn tasks_response(s: &SystemStatistics) -> (r: String)
    ensures
        r@ == tasks_text(*s),
{
    let mut r = String::new();
    r.append("\n=== Tarefas ===\r\nTarefas ativas: ");
    push_decimal(&mut r, s.task_count as u64);
    r.append("\r\n");
    r
}

fn runtime_response(s: &SystemStatistics) -> (r: String)
    ensures
        r@ == runtime_text(*s),
{
    let secs: u64 = if s.uptime_ms / 1000 == 0 {
        1
    } else {
        s.uptime_ms / 1000
    };
    let mut r = String::new();
    r.append("\n=== Tempo de Execução ===\r\nUptime: ");
    push_decimal(&mut r, secs);
    r.append(" s\r\nLED1: ");
    push_decimal(&mut r, s.led1_blinks as u64 * 60 / secs);
    r.append(" piscadas/min\r\nLED2: ");
    push_decimal(&mut r, s.led2_blinks as u64 * 60 / secs);
    r.append(" piscadas/min\r\nADC: ");
    push_decimal(&mut r, s.adc_samples as u64 / secs);
    r.append(" amostras/s\r\n");
    r
}

fn realtime_response(s: &SystemStatistics, e: &EncoderData) -> (r: String)
    ensures
        r@ == realtime_text(*s, *e),
{
    let mut r = String::new();
    r.append("\n=== Tempo Real ===\r\nEncoder: ");
    push_decimal(&mut r, e.count as u64);
    r.append(" pulsos\r\nDireção: ");
    r.append(direction_label(e.direction));
    r.append("\r\nRPM: ");
    push_decimal(&mut r, e.rpm);
    r.append("\r\nPosição do peso: ");
    push_decimal(&mut r, s.weighted_position as u64);
    r.append("\r\n");
    r
}

fn led1_set_response(v: u32) -> (r: String)
    ensures
        r@ == led1_set_text(v),
{
    let mut r = String::new();
    r.append("Velocidade do LED1 ajustada para ");
    push_decimal(&mut r, v as u64);
    r.append(" ms\r\n");
    r
}

/// Runs a command: renders its response from the state before it, then
/// applies its effect on the statistics and on the LED1 period.
pub fn execute(
    c: Command,
    stats: &mut SystemStatistics,
    encoder: &EncoderData,
    led1_period_ms: &mut u32,
) -> (r: String)
    ensures
        r@ == response_of(c, *old(stats), *encoder),
        *final(stats) == stats_after(c, *old(stats)),
        *final(led1_period_ms) == led1_period_after(c, *old(led1_period_ms)),
{
    match c {
        Command::Help => String::from_str(
            "\n=== Comandos do Sistema ===\nstatus\n\rtasks\n\rheap\n\rruntime\n\rrealtime\n\rreset\n\rhelp\n\rled1=n (n velocidade desejada em ms)\n\r",
        ),
        Command::Status => status_response(stats),
        Command::Tasks => tasks_response(stats),
        Command::Heap => String::from_str(
            "\n=== Memória ===\r\nSem heap: todos os buffers têm tamanho fixo\r\n",
        ),
        Command::Runtime => runtime_response(stats),
        Command::Realtime => realtime_response(stats, encoder),
        Command::Reset => {
            stats.reset_counters();
            String::from_str("\nEstatísticas resetadas!\r\n")
        },
        Command::SetLed1Period(v) => {
            *led1_period_ms = v;
            led1_set_response(v)
        },
        Command::InvalidLed1Period => String::from_str("Valor inválido!\r\n"),
        Command::NotFound => String::from_str(
            "Comando não encontrado. Digite 'help' para ajuda.\r\n",
        ),
    }
}

/// Reads a typed line as a command and runs it; returns the response.
pub fn process_command(
    line: &str,
    stats: &mut SystemStatistics,
    encoder: &EncoderData,
    led1_period_ms: &mut u32,
) -> (r: String)
    ensures
        r@ == response_of(command_of(line@), *old(stats), *encoder),
        *final(stats) == stats_after(command_of(line@), *old(stats)),
        *final(led1_period_ms) == led1_period_after(command_of(line@), *old(led1_period_ms)),
{
    let c = parse_command(line);
    execute(c, stats, encoder, led1_period_ms)
}

proof fn lemma_word_command(w: &str)
    requires
        w@.len() >= 1,
        !is_whitespace(w@[0]),
        !is_whitespace(w@[w@.len() - 1]),
        w@.len() < 5 || w@[0] != 'l',
    ensures
        trim(w@) == w@,
        !(w@.len() >= 5 && w@.subrange(0, 5) == "led1="@),
{
    reveal_strlit("led1=");
    assert(lead_end(w@, 0) == 0);
    assert(trail_end(w@, 0, w@.len() as int) == w@.len());
    assert(w@.subrange(0, w@.len() as int) =~= w@);
    if w@.len() >= 5 && w@.subrange(0, 5) == "led1="@ {
        assert(w@.subrange(0, 5)[0] == 'l');
    }
}

/// `status` reports every statistic of the current snapshot in decimal and
/// changes nothing.
pub proof fn lemma_status_reports_snapshot(s: SystemStatistics, e: EncoderData)
    ensures
        response_of(command_of("status"@), s, e) == status_text(s),
        stats_after(command_of("status"@), s) == s,
{
    reveal_strlit("status");
    reveal_strlit("help");
    reveal_strlit("tasks");
    reveal_strlit("heap");
    reveal_strlit("runtime");
    reveal_strlit("realtime");
    lemma_word_command("status");
    assert("status"@ != "help"@);
    assert("status"@ != "tasks"@);
    assert("status"@ != "heap"@);
    assert("status"@ != "runtime"@);
    assert("status"@ != "realtime"@);
}

/// `reset` followed by `status` reports zero button presses and zero blinks
/// of both LEDs, while uptime, ADC samples and the other statistics read as
/// before the reset.
pub proof fn lemma_reset_then_status(s: SystemStatistics, e: EncoderData)
    ensures
        ({
            let after = stats_after(command_of("reset"@), s);
            &&& after.button_presses == 0
            &&& after.led1_blinks == 0
            &&& after.led2_blinks == 0
            &&& after.uptime_ms == s.uptime_ms
            &&& after.adc_samples == s.adc_samples
            &&& after.task_count == s.task_count
            &&& after.weighted_position == s.weighted_position
            &&& response_of(command_of("status"@), after, e) == status_text(after)
        }),
{
    reveal_strlit("reset");
    reveal_strlit("help");
    reveal_strlit("status");
    reveal_strlit("tasks");
    reveal_strlit("heap");
    reveal_strlit("runtime");
    reveal_strlit("realtime");
    lemma_word_command("reset");
    assert("reset"@ != "help"@);
    assert("reset"@ != "status"@);
    assert("reset"@ != "tasks"@);
    assert("reset"@ != "heap"@);
    assert("reset"@ != "runtime"@);
    assert("reset"@ != "realtime"@);
    lemma_status_reports_snapshot(stats_after(command_of("reset"@), s), e);
}

/// Bytes that end a line.
pub open spec fn is_line_end(b: u8) -> bool {
    b == 0x0d || b == 0x0a
}

/// Bytes that erase the last character: backspace and DEL.
pub open spec fn is_erase(b: u8) -> bool {
    b == 0x08 || b == 0x7f
}

/// Printable ASCII, the only bytes taken into the line.
pub open spec fn is_printable(b: u8) -> bool {
    0x20 <= b && b <= 0x7e
}

pub open spec fn all_printable(s: Seq<char>) -> bool {
    forall|i: int| 0 <= i < s.len() ==> 0x20 <= (#[trigger] s[i] as u32) && (s[i] as u32) <= 0x7e
}

/// What the console writes back after one byte.
pub enum ConsoleOutput {
    /// Nothing is written.
    Nothing,
    /// The byte itself is echoed.
    Echo(u8),
    /// This text is written.
    Text(String),
}

/// The characters that an output puts on the wire.
pub open spec fn output_text(o: ConsoleOutput) -> Seq<char> {
    match o {
        ConsoleOutput::Nothing => Seq::<char>::empty(),
        ConsoleOutput::Echo(b) => seq![b as char],
        ConsoleOutput::Text(t) => t@,
    }
}

/// The line editor and command interpreter of the serial console.
pub struct Console {
    /// The characters typed since the last line end.
    pub line: heapless::String<64>,
    /// Blink period of LED1, set by `led1=<n>`.
    pub led1_period_ms: u32,
}

impl Console {
    /// The characters typed since the last line end.
    pub open spec fn line(&self) -> Seq<char> {
        line_chars(self.line)
    }

    pub open spec fn wf(&self) -> bool {
        all_printable(self.line()) && self.line().len() <= LINE_CAPACITY
    }

    /// An empty line and the default LED1 period.
    pub fn new() -> (r: Console)
        ensures
            r.wf(),
            r.line() == Seq::<char>::empty(),
            r.led1_period_ms == DEFAULT_LED1_PERIOD_MS,
    {
        Console { line: line_new(), led1_period_ms: DEFAULT_LED1_PERIOD_MS }
    }

    /// Handles one byte read from the serial line.
    /// - A line end runs the typed command, if any, and answers with its
    ///   response followed by the prompt; the line is cleared.
    /// - Backspace or DEL erases the last character and answers with the
    ///   erase sequence; on an empty line it does nothing.
    /// - A printable character is appended and echoed while the line has
    ///   room, and dropped silently when it is full.
    /// - Any other byte is ignored.
    pub fn feed(&mut self, b: u8, stats: &mut SystemStatistics, encoder: &EncoderData) -> (r:
        ConsoleOutput)
        requires
            old(self).wf(),
        ensures
            final(self).wf(),
            is_line_end(b) && old(self).line().len() > 0 ==> {
                let c = command_of(old(self).line());
                &&& output_text(r) == response_of(c, *old(stats), *encoder) + prompt()
                &&& *final(stats) == stats_after(c, *old(stats))
                &&& final(self).led1_period_ms == led1_period_after(c, old(self).led1_period_ms)
                &&& final(self).line() == Seq::<char>::empty()
            },
            !(is_line_end(b) && old(self).line().len() > 0) ==> *final(stats) == *old(stats)
                && final(self).led1_period_ms == old(self).led1_period_ms,
            is_line_end(b) && old(self).line().len() == 0 ==> output_text(r) == prompt()
                && final(self).line() == old(self).line(),
            is_erase(b) && old(self).line().len() > 0 ==> output_text(r) == erase_sequence()
                && final(self).line() == old(self).line().drop_last(),
            is_erase(b) && old(self).line().len() == 0 ==> r is Nothing && final(self).line()
                == old(self).line(),
            is_printable(b) && old(self).line().len() < LINE_CAPACITY ==> r == ConsoleOutput::Echo(
                b,
            ) && final(self).line() == old(self).line().push(b as char),
            is_printable(b) && old(self).line().len() >= LINE_CAPACITY ==> r is Nothing
                && final(self).line() == old(self).line(),
            !is_line_end(b) && !is_erase(b) && !is_printable(b) ==> r is Nothing
                && final(self).line() == old(self).line(),
    {
        if b == 0x0d || b == 0x0a {
            let text = if line_as_str(&self.line).is_empty() {
                String::from_str("\r\n> ")
            } else {
                let mut response = process_command(
                    line_as_str(&self.line),
                    stats,
                    encoder,
                    &mut self.led1_period_ms,
                );
                line_clear(&mut self.line);
                response.append("\r\n> ");
                response
            };
            ConsoleOutput::Text(text)
        } else if b == 0x08 || b == 0x7f {
            match line_pop(&mut self.line) {
                Some(_) => ConsoleOutput::Text(String::from_str("\x08 \x08")),
                None => ConsoleOutput::Nothing,
            }
        } else if 0x20 <= b && b <= 0x7e {
            let ghost before = self.line();
            match line_push(&mut self.line, b as char) {
                Ok(()) => {
                    assert(all_printable(self.line())) by {
                        assert forall|i: int| 0 <= i < self.line().len() implies 0x20 <= (
                        #[trigger] self.line()[i] as u32) && (self.line()[i] as u32) <= 0x7e by {
                            if i < before.len() {
                                assert(self.line()[i] == before[i]);
                            }
                        }
                    }
                    ConsoleOutput::Echo(b)
                },
                Err(()) => ConsoleOutput::Nothing,
            }
        } else {
            ConsoleOutput::Nothing
        }
    }
}

} // verus!
