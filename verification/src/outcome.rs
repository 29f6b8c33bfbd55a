//! What became of one target, and what is shown for it.

use vstd::prelude::*;

verus! {

/// The result of one attempt on one target. There is one per target.
#[derive(Debug, PartialEq, Eq)]
pub enum CaptureOutcome {
    /// The screenshot was taken and stored.
    Success { status_code: u16, page_title: String },
    /// The reachability probe did not answer in time.
    Timeout,
    /// The probe, the navigation or the capture failed.
    ProtocolError { cause: String },
}

/// A `CaptureOutcome` with its strings as sequences of characters.
pub enum OutcomeView {
    Success { status_code: u16, page_title: Seq<char> },
    Timeout,
    ProtocolError { cause: Seq<char> },
}

impl View for CaptureOutcome {
    type V = OutcomeView;

    open spec fn view(&self) -> OutcomeView {
        match *self {
            CaptureOutcome::Success { status_code, page_title } => OutcomeView::Success {
                status_code,
                page_title: page_title@,
            },
            CaptureOutcome::Timeout => OutcomeView::Timeout,
            CaptureOutcome::ProtocolError { cause } => OutcomeView::ProtocolError {
                cause: cause@,
            },
        }
    }
}

/// What the reporter shows for one outcome.
#[derive(Debug, Clone, Copy, PartialEq, Eq, Structural)]
pub enum Report {
    /// Nothing: a success in silent mode.
    Suppressed,
    /// The line with URL, title and status.
    SuccessLine,
    /// The timeout diagnostic with its hint to raise the timeout.
    TimeoutDiagnostic,
    /// The line that names the failure.
    FailureLine,
}

/// What is shown for `outcome`. Silent mode hides the success line and
/// nothing else.
pub open spec fn report_of(outcome: OutcomeView, silent: bool) -> Report {
    match outcome {
        OutcomeView::Success { .. } => if silent {
            Report::Suppressed
        } else {
            Report::SuccessLine
        },
        OutcomeView::Timeout => Report::TimeoutDiagnostic,
        OutcomeView::ProtocolError { .. } => Report::FailureLine,
    }
}

/// Decides what to show for `outcome`.
pub fn report_for(outcome: &CaptureOutcome, silent: bool) -> (r: Report)
    ensures
        r == report_of(outcome@, silent),
        r == Report::Suppressed <==> silent && outcome@ is Success,
        outcome@ is Timeout ==> r == Report::TimeoutDiagnostic,
{
    match outcome {
        CaptureOutcome::Success { .. } => {
            if silent {
                Report::Suppressed
            } else {
                Report::SuccessLine
            }
        },
        CaptureOutcome::Timeout => Report::TimeoutDiagnostic,
        CaptureOutcome::ProtocolError { .. } => Report::FailureLine,
    }
}

/// The hint that goes with every timeout.
pub fn timeout_hint() -> (line: String)
    ensures
        line@ == "Please increase timout value by --timeout flag"@,
{
    String::from_str("Please increase timout value by --timeout flag")
}

/// The diagnostic line for a target that timed out.
pub fn timeout_line(url: &str) -> (line: String)
    ensures
        line@ == "[-] Timed out URL = "@ + url@,
{
    String::from_str("[-] Timed out URL = ").concat(url)
}

/// The last line of a run, which names the output directory.
pub fn summary_line(outdir: &str) -> (line: String)
    ensures
        line@ == "Screenshots Taken and saved in directory: "@ + outdir@,
{
    String::from_str("Screenshots Taken and saved in directory: ").concat(outdir)
}

/// The character for one decimal digit.
pub open spec fn digit_of(d: nat) -> char {
    if d == 0 {
        '0'
    } else if d == 1 {
        '1'
    } else if d == 2 {
        '2'
    } else if d == 3 {
        '3'
    } else if d == 4 {
        '4'
    } else if d == 5 {
        '5'
    } else if d == 6 {
        '6'
    } else if d == 7 {
        '7'
    } else if d == 8 {
        '8'
    } else {
        '9'
    }
}

/// `n` written in decimal, without leading zeros.
pub open spec fn decimal_of(n: nat) -> Seq<char>
    decreases n,
{
    if n < 10 {
        seq![digit_of(n)]
    } else {
        decimal_of(n / 10).push(digit_of(n % 10))
    }
}

fn digit(d: u16) -> (s: &'static str)
    requires
        d < 10,
    ensures
        s@ == seq![digit_of(d as nat)],
{
    proof {
        reveal_strlit("0");
        reveal_strlit("1");
        reveal_strlit("2");
        reveal_strlit("3");
        reveal_strlit("4");
        reveal_strlit("5");
        reveal_strlit("6");
        reveal_strlit("7");
        reveal_strlit("8");
        reveal_strlit("9");
    }
    let s = match d {
        0 => "0",
        1 => "1",
        2 => "2",
        3 => "3",
        4 => "4",
        5 => "5",
        6 => "6",
        7 => "7",
        8 => "8",
        _ => "9",
    };
    assert(s@ =~= seq![digit_of(d as nat)]);
    s
}

/// Writes an HTTP status in decimal.
pub fn decimal(n: u16) -> (s: String)
    ensures
        s@ == decimal_of(n as nat),
    decreases n,
{
    if n < 10 {
        String::from_str(digit(n))
    } else {
        let head = decimal(n / 10);
        let last = digit(n % 10);
        assert(head@ + last@ =~= head@.push(digit_of((n % 10) as nat)));
        head.concat(last)
    }
}

/// The plain text shown for `outcome` of the target `url`: for a success
/// its URL, title and status, unless silent; for a timeout the hint and the
/// diagnostic, silent or not; for a failure one line with its cause.
pub open spec fn lines_of(url: Seq<char>, outcome: OutcomeView, silent: bool) -> Seq<Seq<char>> {
    match outcome {
        OutcomeView::Success { status_code, page_title } => if silent {
            Seq::empty()
        } else {
            seq![
                " 🔗 URL = "@ + url,
                " 🏠 Title = "@ + page_title,
                " 🔥 Status = "@ + decimal_of(status_code as nat),
            ]
        },
        OutcomeView::Timeout => seq![
            "Please increase timout value by --timeout flag"@,
            "[-] Timed out URL = "@ + url,
        ],
        OutcomeView::ProtocolError { cause } => seq!["[-] Failed URL = "@ + url + ": "@ + cause],
    }
}

/// Renders the lines that are shown for one outcome. Nothing is shown for
/// a success in silent mode, and only then.
pub fn render(url: &str, outcome: &CaptureOutcome, silent: bool) -> (lines: Vec<String>)
    ensures
        lines.deep_view() == lines_of(url@, outcome@, silent),
        lines.len() == 0 <==> report_of(outcome@, silent) == Report::Suppressed,
{
    let mut lines: Vec<String> = Vec::new();
    match outcome {
        CaptureOutcome::Success { status_code, page_title } => {
            if !silent {
                let status = decimal(*status_code);
                lines.push(String::from_str(" 🔗 URL = ").concat(url));
                lines.push(String::from_str(" 🏠 Title = ").concat(page_title.as_str()));
                lines.push(String::from_str(" 🔥 Status = ").concat(status.as_str()));
            }
        },
        CaptureOutcome::Timeout => {
            lines.push(timeout_hint());
            lines.push(timeout_line(url));
        },
        CaptureOutcome::ProtocolError { cause } => {
            lines.push(
                String::from_str("[-] Failed URL = ").concat(url).concat(": ").concat(
                    cause.as_str(),
                ),
            );
        },
    }
    assert(lines.deep_view() =~= lines_of(url@, outcome@, silent));
    lines
}

} // verus!
