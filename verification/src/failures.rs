//! The log of crates that could not be downloaded or analysed.

use vstd::prelude::*;

use crate::catalog::Crate;

verus! {

/// One failure: the crate's name and the step at which it failed.
pub struct ErrorData {
    pub name: String,
    pub origin: String,
}

/// A failure as plain text: (crate name, step).
pub open spec fn entry_of(e: ErrorData) -> (Seq<char>, Seq<char>) {
    (e.name@, e.origin@)
}

/// The names of the failed crates, in the order of the log.
pub open spec fn names_of(entries: Seq<(Seq<char>, Seq<char>)>) -> Seq<Seq<char>> {
    entries.map_values(|e: (Seq<char>, Seq<char>)| e.0)
}

/// The line that reports one failure in the final listing.
pub open spec fn report_line_of(e: (Seq<char>, Seq<char>)) -> Seq<char> {
    e.0 + "-"@ + e.1
}

/// The message printed when a crate fails.
pub open spec fn failure_message_of(name: Seq<char>, origin: Seq<char>) -> Seq<char> {
    "Failed: ["@ + name + "], Origin: "@ + origin
}

/// The failures of a run, in the order in which they were recorded.
pub struct ErrorHandling {
    crates: Vec<ErrorData>,
}

impl View for ErrorHandling {
    type V = Seq<(Seq<char>, Seq<char>)>;

    closed spec fn view(&self) -> Seq<(Seq<char>, Seq<char>)> {
        self.crates@.map_values(|e: ErrorData| entry_of(e))
    }
}

/// The message printed when a crate fails.
pub fn failure_message(name: &str, origin: &str) -> (msg: String)
    ensures
        msg@ == failure_message_of(name@, origin@),
{
    let mut msg = String::from_str("Failed: [");
    msg.append(name);
    msg.append("], Origin: ");
    msg.append(origin);
    msg
}

impl ErrorHandling {
    /// An empty log.
    pub fn new() -> (log: ErrorHandling)
        ensures
            log@ == Seq::<(Seq<char>, Seq<char>)>::empty(),
    {
        let log = ErrorHandling { crates: Vec::new() };
        assert(log@ =~= Seq::<(Seq<char>, Seq<char>)>::empty());
        log
    }

    /// A log holding these failures, in this order.
    pub fn from_entries(entries: Vec<ErrorData>) -> (log: ErrorHandling)
        ensures
            log@ == entries@.map_values(|e: ErrorData| entry_of(e)),
    {
        ErrorHandling { crates: entries }
    }

    /// The failures, in order.
    pub fn entries(&self) -> (entries: &Vec<ErrorData>)
        ensures
            entries@.map_values(|e: ErrorData| entry_of(e)) == self@,
    {
        &self.crates
    }

    /// How many failures are recorded.
    pub fn len(&self) -> (n: usize)
        ensures
            n == self@.len(),
    {
        self.crates.len()
    }

    /// Records that the crate `name` failed at step `origin`.
    pub fn record(&mut self, name: String, origin: &str)
        ensures
            final(self)@ == old(self)@.push((name@, origin@)),
    {
        let entry = ErrorData { name, origin: String::from_str(origin) };
        self.crates.push(entry);
        assert(self@ =~= old(self)@.push((name@, origin@)));
    }

    /// Records that crate `c` failed at step `origin`.
    pub fn record_crate(&mut self, c: &Crate, origin: &str)
        ensures
            final(self)@ == old(self)@.push((c.name@, origin@)),
    {
        self.record(c.name.clone(), origin);
    }

    /// The names of the failed crates, in order: the crates to try again.
    pub fn names(&self) -> (names: Vec<String>)
        ensures
            names@.len() == self@.len(),
            forall|i: int| 0 <= i < self@.len() ==> #[trigger] names@[i]@ == names_of(self@)[i],
    {
        let mut names: Vec<String> = Vec::new();
        let mut i: usize = 0;
        while i < self.crates.len()
            invariant
                i <= self.crates@.len(),
                names@.len() == i,
                forall|k: int| 0 <= k < i ==> #[trigger] names@[k]@ == self.crates@[k].name@,
            decreases self.crates@.len() - i,
        {
            names.push(self.crates[i].name.clone());
            i = i + 1;
        }
        names
    }

    /// The lines of the final listing, one per failure: the crate's name, `-`, the step.
    pub fn report_lines(&self) -> (lines: Vec<String>)
        ensures
            lines@.len() == self@.len(),
            forall|i: int| 0 <= i < self@.len() ==> #[trigger] lines@[i]@ == report_line_of(self@[i]),
    {
        let mut lines: Vec<String> = Vec::new();
        let mut i: usize = 0;
        while i < self.crates.len()
            invariant
                i <= self.crates@.len(),
                lines@.len() == i,
                forall|k: int|
                    0 <= k < i ==> #[trigger] lines@[k]@ == report_line_of(
                        entry_of(self.crates@[k]),
                    ),
            decreases self.crates@.len() - i,
        {
            let entry = &self.crates[i];
            let mut line = String::from_str(entry.name.as_str());
            line.append("-");
            line.append(entry.origin.as_str());
            lines.push(line);
            i = i + 1;
        }
        lines
    }
}

/// The failure message is `Failed: [`, the crate's name, `], Origin: ` and the step,
/// each copied character for character.
pub proof fn law_failure_message_layout(name: Seq<char>, origin: Seq<char>)
    ensures
        ({
            let msg = failure_message_of(name, origin);
            let n = name.len() as int;
            let o = origin.len() as int;
            &&& msg.len() == 20 + n + o
            &&& msg.subrange(0, 9) == "Failed: ["@
            &&& msg.subrange(9, 9 + n) == name
            &&& msg.subrange(9 + n, 20 + n) == "], Origin: "@
            &&& msg.subrange(20 + n, 20 + n + o) == origin
        }),
{
    reveal_strlit("Failed: [");
    reveal_strlit("], Origin: ");
    let msg = failure_message_of(name, origin);
    let n = name.len() as int;
    let o = origin.len() as int;
    assert(msg.subrange(0, 9) =~= "Failed: ["@);
    assert(msg.subrange(9, 9 + n) =~= name);
    assert(msg.subrange(9 + n, 20 + n) =~= "], Origin: "@);
    assert(msg.subrange(20 + n, 20 + n + o) =~= origin);
}

/// A report line is the crate's name, `-` and the step, each copied character for
/// character.
pub proof fn law_report_line_layout(name: Seq<char>, origin: Seq<char>)
    ensures
        ({
            let line = report_line_of((name, origin));
            let n = name.len() as int;
            let o = origin.len() as int;
            &&& line.len() == n + 1 + o
            &&& line.subrange(0, n) == name
            &&& line[n] == '-'
            &&& line.subrange(n + 1, n + 1 + o) == origin
        }),
{
    reveal_strlit("-");
    let line = report_line_of((name, origin));
    let n = name.len() as int;
    let o = origin.len() as int;
    assert(line.subrange(0, n) =~= name);
    assert(line.subrange(n + 1, n + 1 + o) =~= origin);
}

/// Recording a failure adds its crate, last, to the crates to try again, and
/// leaves the earlier ones as they were.
pub proof fn law_record_then_names(
    log: Seq<(Seq<char>, Seq<char>)>,
    name: Seq<char>,
    origin: Seq<char>,
)
    ensures
        names_of(log.push((name, origin))) == names_of(log).push(name),
        log.push((name, origin)).len() == log.len() + 1,
{
    assert(names_of(log.push((name, origin))) =~= names_of(log).push(name));
}

} // verus!
