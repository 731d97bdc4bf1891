//! A registry of named gauge metrics and its rendering into the line-oriented
//! text exposition format:
//!
//! ```text
//! # HELP <name> <help>
//! # TYPE <name> gauge
//! <name> <value>
//! ```

use vstd::prelude::*;
use vstd::string::StrSliceExecFns;
use vstd::string::StringExecFns;

verus! {

/// A character allowed in a metric name: ASCII letters, digits, `_` and `:`.
pub open spec fn is_name_char(c: char) -> bool {
    ('a' <= c && c <= 'z') || ('A' <= c && c <= 'Z') || ('0' <= c && c <= '9') || c == '_' || c
        == ':'
}

/// A well-formed metric name: nonempty, made of name characters only.
pub open spec fn valid_name(s: Seq<char>) -> bool {
    &&& s.len() > 0
    &&& forall|i: int| 0 <= i < s.len() ==> is_name_char(#[trigger] s[i])
}

/// Free text that fits on one exposition line: no newline characters.
pub open spec fn line_text(s: Seq<char>) -> bool {
    forall|i: int| 0 <= i < s.len() ==> #[trigger] s[i] != '\n'
}

/// A rendered value: nonempty one-line text that does not begin with `#`,
/// so a series line can never be mistaken for a comment line.
pub open spec fn valid_value(s: Seq<char>) -> bool {
    &&& s.len() > 0
    &&& line_text(s)
    &&& s[0] != '#'
}

/// A single named gauge metric. The current value is kept as the decimal
/// text that the exposition body shows for it.
pub struct Gauge {
    pub name: String,
    pub help: String,
    pub value: String,
}

impl Gauge {
    /// Well-formedness: the name is a metric name, and help and value each
    /// fit on their exposition line.
    pub open spec fn wf(self) -> bool {
        &&& valid_name(self.name@)
        &&& line_text(self.help@)
        &&& valid_value(self.value@)
    }

    /// The `# HELP` line of this gauge, without its trailing newline.
    pub open spec fn help_line(self) -> Seq<char> {
        "# HELP "@ + self.name@ + " "@ + self.help@
    }

    /// The `# TYPE` line of this gauge, without its trailing newline.
    pub open spec fn type_line(self) -> Seq<char> {
        "# TYPE "@ + self.name@ + " gauge"@
    }

    /// The series line of this gauge, without its trailing newline.
    pub open spec fn value_line(self) -> Seq<char> {
        self.name@ + " "@ + self.value@
    }

    /// The full rendering of this gauge: its three lines, each newline-terminated.
    pub open spec fn rendered(self) -> Seq<char> {
        self.help_line() + "\n"@ + self.type_line() + "\n"@ + self.value_line() + "\n"@
    }

    /// Builds a gauge with the given name and help text and the default
    /// value `0`, shown until the first sample is published.
    pub fn new(name: String, help: String) -> (g: Gauge)
        requires
            valid_name(name@),
            line_text(help@),
        ensures
            g.name@ == name@,
            g.help@ == help@,
            g.value@ == "0"@,
            g.wf(),
    {
        let value = String::from_str("0");
        proof {
            reveal_strlit("0");
        }
        Gauge { name, help, value }
    }

    /// Renders this gauge's three exposition lines into one string.
    pub fn render(&self) -> (r: String)
        ensures
            r@ == self.rendered(),
    {
        let mut r = String::new();
        r.append("# HELP ");
        r.append(self.name.as_str());
        r.append(" ");
        r.append(self.help.as_str());
        r.append("\n");
        r.append("# TYPE ");
        r.append(self.name.as_str());
        r.append(" gauge");
        r.append("\n");
        r.append(self.name.as_str());
        r.append(" ");
        r.append(self.value.as_str());
        r.append("\n");
        proof {
            assert(r@ =~= self.rendered());
        }
        r
    }
}

/// Decides whether `s` may stand as a gauge's current value text:
/// nonempty, free of newlines, and not opening like a comment line.
pub fn check_value(s: &str) -> (b: bool)
    ensures
        b == valid_value(s@),
{
    let n = s.unicode_len();
    if n == 0 {
        return false;
    }
    if s.get_char(0) == '#' {
        return false;
    }
    let mut i: usize = 0;
    while i < n
        invariant
            n == s@.len(),
            i <= n,
            forall|k: int| 0 <= k < i ==> #[trigger] s@[k] != '\n',
        decreases n - i,
    {
        if s.get_char(i) == '\n' {
            return false;
        }
        i += 1;
    }
    true
}

/// The one metric this system exposes: the target process's CPU usage as a
/// percentage, shown as `0` until the first sample arrives.
pub fn cpu_gauge() -> (g: Gauge)
    ensures
        g.name@ == "GRANDINE_TOTAL_CPU_PERCENTAGE"@,
        g.help@ == "Grandine CPU load usage measured in percentage"@,
        g.value@ == "0"@,
        g.wf(),
{
    proof {
        reveal_strlit("GRANDINE_TOTAL_CPU_PERCENTAGE");
        reveal_strlit("Grandine CPU load usage measured in percentage");
    }
    let name = String::from_str("GRANDINE_TOTAL_CPU_PERCENTAGE");
    let help = String::from_str("Grandine CPU load usage measured in percentage");
    Gauge::new(name, help)
}

/// The one error the registry can report: registering a second metric
/// under a name that is already taken.
#[derive(PartialEq, Eq, Structural, Debug)]
pub enum RegistryError {
    DuplicateName,
}

/// A process-wide collection of registered gauges, rendered as one body.
pub struct Registry {
    pub gauges: Vec<Gauge>,
}

/// The rendering of the first `n` gauges of `gs`, concatenated in
/// registration order.
pub open spec fn rendered_prefix(gs: Seq<Gauge>, n: int) -> Seq<char>
    decreases n,
{
    if n <= 0 {
        Seq::<char>::empty()
    } else {
        rendered_prefix(gs, n - 1) + gs[n - 1].rendered()
    }
}

/// The full rendering of a registry's gauges, in registration order.
pub open spec fn rendered_all(gs: Seq<Gauge>) -> Seq<char> {
    rendered_prefix(gs, gs.len() as int)
}

impl Registry {
    /// Well-formedness: every gauge is well formed and no two share a name.
    pub open spec fn wf(self) -> bool {
        &&& forall|i: int| 0 <= i < self.gauges@.len() ==> (#[trigger] self.gauges@[i]).wf()
        &&& forall|i: int, j: int|
            0 <= i < self.gauges@.len() && 0 <= j < self.gauges@.len() && i != j
                ==> self.gauges@[i].name@ != self.gauges@[j].name@
    }

    /// Whether some registered gauge already carries `name`.
    pub open spec fn has_name(self, name: Seq<char>) -> bool {
        exists|i: int| 0 <= i < self.gauges@.len() && (#[trigger] self.gauges@[i]).name@ == name
    }

    /// An empty registry.
    pub fn new() -> (r: Registry)
        ensures
            r.gauges@ =~= Seq::<Gauge>::empty(),
            r.wf(),
    {
        Registry { gauges: Vec::new() }
    }

    /// Registers a gauge. Succeeds with the gauge's index exactly when its
    /// name is still free; a taken name is refused and the registry is left
    /// unchanged.
    pub fn register(&mut self, g: Gauge) -> (r: Result<usize, RegistryError>)
        requires
            old(self).wf(),
            g.wf(),
        ensures
            final(self).wf(),
            r is Ok <==> !old(self).has_name(g.name@),
            r matches Ok(i) ==> i == old(self).gauges@.len() && final(self).gauges@ == old(
                self,
            ).gauges@.push(g),
            r is Err ==> r == Result::<usize, RegistryError>::Err(RegistryError::DuplicateName)
                && *final(self) == *old(self),
    {
        let n = self.gauges.len();
        let mut i: usize = 0;
        while i < n
            invariant
                *self == *old(self),
                old(self).wf(),
                n == self.gauges@.len(),
                i <= n,
                forall|k: int| 0 <= k < i ==> (#[trigger] self.gauges@[k]).name@ != g.name@,
            decreases n - i,
        {
            if self.gauges[i].name == g.name {
                return Err(RegistryError::DuplicateName);
            }
            i += 1;
        }
        self.gauges.push(g);
        Ok(n)
    }

    /// Overwrites the value of the gauge at `i` with `value`; its name and
    /// help text, and every other gauge, are untouched.
    pub fn set_value(&mut self, i: usize, value: String)
        requires
            old(self).wf(),
            i < old(self).gauges@.len(),
            valid_value(value@),
        ensures
            final(self).wf(),
            final(self).gauges@ == old(self).gauges@.update(
                i as int,
                (Gauge {
                    name: old(self).gauges@[i as int].name,
                    help: old(self).gauges@[i as int].help,
                    value: value,
                }),
            ),
            final(self).gauges@[i as int].value@ == value@,
    {
        self.gauges[i].value = value;
        proof {
            assert(self.gauges@ =~= old(self).gauges@.update(
                i as int,
                (Gauge {
                    name: old(self).gauges@[i as int].name,
                    help: old(self).gauges@[i as int].help,
                    value: value,
                }),
            ));
        }
    }

    /// Renders every registered gauge, in registration order, into one body.
    pub fn render_all(&self) -> (r: String)
        ensures
            r@ == rendered_all(self.gauges@),
    {
        let mut r = String::new();
        let n = self.gauges.len();
        let mut i: usize = 0;
        while i < n
            invariant
                n == self.gauges@.len(),
                i <= n,
                r@ == rendered_prefix(self.gauges@, i as int),
            decreases n - i,
        {
            let block = self.gauges[i].render();
            r.append(block.as_str());
            i += 1;
        }
        r
    }
}

} // verus!
