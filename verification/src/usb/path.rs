//! The address of a device in the tree of a bus.
use crate::error::Error;
use crate::text::push_char;
use crate::wire::copy_bytes;
use vstd::prelude::*;
use vstd::string::StrSliceExecFns;

verus! {

/// The address of a device: the number of its bus and the ports of the hubs
/// passed on the way to it, from the root hub of the bus on. The root hub
/// itself has no ports.
#[derive(Debug, Clone, PartialEq, Eq, Hash)]
pub struct PortPath {
    bus: u8,
    ports: Vec<u8>,
}

/// A port path as a mathematical value.
pub struct PortPathView {
    pub bus: u8,
    pub ports: Seq<u8>,
}

impl PortPathView {
    /// The number of hubs passed.
    pub open spec fn depth(self) -> nat {
        self.ports.len()
    }

    /// The path is that of the root hub of its bus.
    pub open spec fn is_root_hub(self) -> bool {
        self.ports.len() == 0
    }

    /// The path of the hub that the last port belongs to; the root hub has none.
    pub open spec fn parent(self) -> Option<PortPathView> {
        if self.ports.len() == 0 {
            None
        } else {
            Some(PortPathView { bus: self.bus, ports: self.ports.drop_last() })
        }
    }

    /// The path of the root hub of the bus.
    pub open spec fn trunk(self) -> PortPathView {
        PortPathView { bus: self.bus, ports: Seq::empty() }
    }

    /// `self` comes before `other` where paths are ordered by bus, then port
    /// by port, a path before those that continue it.
    pub open spec fn precedes(self, other: PortPathView) -> bool {
        self.bus < other.bus || (self.bus == other.bus && ports_precede(self.ports, other.ports))
    }
}

/// `a` comes before `b` in the order of the dictionary.
pub open spec fn ports_precede(a: Seq<u8>, b: Seq<u8>) -> bool
    decreases a.len(),
{
    if b.len() == 0 {
        false
    } else if a.len() == 0 {
        true
    } else if a[0] != b[0] {
        a[0] < b[0]
    } else {
        ports_precede(a.drop_first(), b.drop_first())
    }
}

impl View for PortPath {
    type V = PortPathView;

    closed spec fn view(&self) -> PortPathView {
        PortPathView { bus: self.bus, ports: self.ports@ }
    }
}

impl PortPath {
    /// The path of the device behind the ports `ports` of the bus `bus`.
    pub fn new(bus: u8, ports: Vec<u8>) -> (path: PortPath)
        ensures
            path@ == (PortPathView { bus, ports: ports@ }),
    {
        PortPath { bus, ports }
    }

    /// The number of the bus.
    pub fn bus(&self) -> (bus: u8)
        ensures
            bus == self@.bus,
    {
        self.bus
    }

    /// The ports passed, from the root hub on.
    pub fn ports(&self) -> (ports: &Vec<u8>)
        ensures
            ports@ == self@.ports,
    {
        &self.ports
    }

    /// The number of hubs passed.
    pub fn depth(&self) -> (depth: usize)
        ensures
            depth == self@.depth(),
    {
        self.ports.len()
    }

    /// Whether the path is that of the root hub of its bus.
    pub fn is_root_hub(&self) -> (root: bool)
        ensures
            root == self@.is_root_hub(),
    {
        self.ports.len() == 0
    }

    /// The path of the hub that the last port belongs to; the root hub has none.
    pub fn parent(&self) -> (parent: Option<PortPath>)
        ensures
            match parent {
                Some(p) => self@.parent() == Some(p@),
                None => self@.parent() is None,
            },
    {
        if self.ports.len() == 0 {
            None
        } else {
            let mut ports = copy_bytes(&self.ports);
            ports.pop();
            Some(PortPath { bus: self.bus, ports })
        }
    }

    /// The path of the root hub of the bus.
    pub fn trunk(&self) -> (trunk: PortPath)
        ensures
            trunk@ == self@.trunk(),
    {
        PortPath { bus: self.bus, ports: Vec::new() }
    }

    /// Whether `self` and `other` are the same address.
    pub fn same_as(&self, other: &PortPath) -> (same: bool)
        ensures
            same == (self@ == other@),
    {
        if self.bus != other.bus || self.ports.len() != other.ports.len() {
            return false;
        }
        let mut i: usize = 0;
        while i < self.ports.len()
            invariant
                i <= self.ports.len(),
                self.ports.len() == other.ports.len(),
                forall|j: int| 0 <= j < i ==> self.ports@[j] == other.ports@[j],
            decreases self.ports.len() - i,
        {
            if self.ports[i] != other.ports[i] {
                return false;
            }
            i = i + 1;
        }
        assert(self.ports@ =~= other.ports@);
        true
    }

    /// Whether `self` comes before `other`: by bus, then port by port, a path
    /// before those that continue it.
    pub fn precedes(&self, other: &PortPath) -> (before: bool)
        ensures
            before == self@.precedes(other@),
    {
        if self.bus != other.bus {
            return self.bus < other.bus;
        }
        let mut i: usize = 0;
        assert(self.ports@.skip(0) =~= self.ports@ && other.ports@.skip(0) =~= other.ports@);
        while i < self.ports.len() && i < other.ports.len()
            invariant
                self.bus == other.bus,
                i <= self.ports.len(),
                i <= other.ports.len(),
                ports_precede(self.ports@, other.ports@) == ports_precede(
                    self.ports@.skip(i as int),
                    other.ports@.skip(i as int),
                ),
            decreases self.ports.len() - i,
        {
            let ghost a = self.ports@.skip(i as int);
            let ghost b = other.ports@.skip(i as int);
            assert(a[0] == self.ports@[i as int] && b[0] == other.ports@[i as int]);
            if self.ports[i] != other.ports[i] {
                assert(ports_precede(a, b) == (a[0] < b[0]));
                return self.ports[i] < other.ports[i];
            }
            assert(ports_precede(a, b) == ports_precede(a.drop_first(), b.drop_first()));
            assert(a.drop_first() =~= self.ports@.skip(i + 1));
            assert(b.drop_first() =~= other.ports@.skip(i + 1));
            i = i + 1;
        }
        i < other.ports.len()
    }
}

/// The character of the decimal digit `d`.
pub open spec fn digit(d: int) -> char {
    (48 + d) as char
}

/// The number `n` in decimal digits, without leading zeros.
pub open spec fn decimal(n: nat) -> Seq<char>
    decreases n,
{
    if n < 10 {
        seq![digit(n as int)]
    } else {
        decimal(n / 10).push(digit((n % 10) as int))
    }
}

/// The first `n` ports of `ports` in decimal digits, with a dot between two ports.
pub open spec fn dotted(ports: Seq<u8>, n: nat) -> Seq<char>
    decreases n,
{
    if n == 0 {
        Seq::empty()
    } else if n == 1 {
        decimal(ports[0] as nat)
    } else {
        dotted(ports, (n - 1) as nat).push('.') + decimal(ports[n - 1] as nat)
    }
}

/// The text of a port path: the bus, a dash, and the ports with a dot between
/// two of them; in place of the ports of a root hub stands a zero.
pub open spec fn rendered(path: PortPathView) -> Seq<char> {
    decimal(path.bus as nat).push('-') + if path.ports.len() == 0 {
        decimal(0)
    } else {
        dotted(path.ports, path.ports.len())
    }
}

/// What reading the text of a port path has come to: the bus, once its dash
/// is read; the ports that are complete; and the number that is being read.
pub struct Scan {
    pub bus: Option<u8>,
    pub ports: Seq<u8>,
    pub number: Option<u8>,
    pub failed: bool,
}

impl Scan {
    /// Nothing is read yet.
    pub open spec fn start() -> Scan {
        Scan { bus: None, ports: Seq::empty(), number: None, failed: false }
    }

    /// What the reading comes to with the character `c`. A digit starts or
    /// continues a number, which has no leading zero and no more than 255; the
    /// dash ends the bus, once; a dot ends a port. Any other character, and
    /// any of these out of place, fails the reading.
    pub open spec fn step(self, c: char) -> Scan {
        if self.failed {
            self
        } else if '0' <= c <= '9' {
            let d = c as int - 48;
            match self.number {
                None => Scan { number: Some(d as u8), ..self },
                Some(v) => if v == 0 || v * 10 + d > 255 {
                    Scan { failed: true, ..self }
                } else {
                    Scan { number: Some((v * 10 + d) as u8), ..self }
                },
            }
        } else if c == '-' {
            match (self.bus, self.number) {
                (None, Some(v)) => Scan { bus: Some(v), number: None, ..self },
                _ => Scan { failed: true, ..self },
            }
        } else if c == '.' {
            match (self.bus, self.number) {
                (Some(_), Some(v)) => Scan { ports: self.ports.push(v), number: None, ..self },
                _ => Scan { failed: true, ..self },
            }
        } else {
            Scan { failed: true, ..self }
        }
    }

    /// What the reading comes to with the first `n` characters of `text`.
    pub open spec fn run(self, text: Seq<char>, n: nat) -> Scan
        decreases n,
    {
        if n == 0 {
            self
        } else {
            self.run(text, (n - 1) as nat).step(text[n - 1])
        }
    }

    /// The port path that is read, where the reading did not fail and ends
    /// with a port behind the dash. The port 0 alone stands for the root hub.
    pub open spec fn path(self) -> Option<PortPathView> {
        if self.failed {
            None
        } else {
            match (self.bus, self.number) {
                (Some(bus), Some(last)) => if self.ports.len() == 0 && last == 0 {
                    Some(PortPathView { bus, ports: Seq::empty() })
                } else {
                    Some(PortPathView { bus, ports: self.ports.push(last) })
                },
                _ => None,
            }
        }
    }
}

/// The port path that the text `text` stands for, if it stands for one.
pub open spec fn parsed(text: Seq<char>) -> Option<PortPathView> {
    Scan::start().run(text, text.len()).path()
}

/// Reading a text in two parts is reading the whole.
pub proof fn lemma_run_in_parts(scan: Scan, a: Seq<char>, b: Seq<char>, n: nat)
    requires
        n <= b.len(),
    ensures
        scan.run(a + b, a.len() + n) == scan.run(a, a.len()).run(b, n),
    decreases n,
{
    if n == 0 {
        lemma_run_of_prefix(scan, a, a + b, a.len());
    } else {
        lemma_run_in_parts(scan, a, b, (n - 1) as nat);
        assert((a + b)[a.len() + n - 1] == b[n - 1]);
    }
}

/// Reading the first `n` characters depends on these characters only.
pub proof fn lemma_run_of_prefix(scan: Scan, a: Seq<char>, b: Seq<char>, n: nat)
    requires
        n <= a.len(),
        n <= b.len(),
        forall|i: int| 0 <= i < n ==> a[i] == b[i],
    ensures
        scan.run(a, n) == scan.run(b, n),
    decreases n,
{
    if n > 0 {
        lemma_run_of_prefix(scan, a, b, (n - 1) as nat);
    }
}

/// Reading the decimal digits of a number of one byte, where no number is
/// being read, comes to that number.
pub proof fn lemma_run_decimal(scan: Scan, v: u8)
    requires
        !scan.failed,
        scan.number is None,
    ensures
        scan.run(decimal(v as nat), decimal(v as nat).len()) == (Scan { number: Some(v), ..scan }),
{
    reveal_with_fuel(decimal, 3);
    reveal_with_fuel(Scan::run, 4);
    let text = decimal(v as nat);
    if v < 10 {
        assert(text =~= seq![digit(v as int)]);
        assert(text[0] as int - 48 == v);
    } else if v < 100 {
        assert(text =~= seq![digit((v / 10) as int), digit((v % 10) as int)]);
        assert(text[0] as int - 48 == v / 10);
        assert(text[1] as int - 48 == v % 10);
    } else {
        assert(text =~= seq![
            digit((v / 100) as int),
            digit((v / 10 % 10) as int),
            digit((v % 10) as int),
        ]);
        assert(text[0] as int - 48 == v / 100);
        assert(text[1] as int - 48 == v / 10 % 10);
        assert(text[2] as int - 48 == v % 10);
    }
}

/// Reading the first `n` ports with their dots, behind the dash, comes to
/// the ports before the last as complete and to the last as the number read.
pub proof fn lemma_run_dotted(scan: Scan, ports: Seq<u8>, n: nat)
    requires
        !scan.failed,
        scan.bus is Some,
        scan.number is None,
        1 <= n <= ports.len(),
    ensures
        scan.run(dotted(ports, n), dotted(ports, n).len()) == (Scan {
            ports: scan.ports + ports.subrange(0, n - 1),
            number: Some(ports[n - 1]),
            ..scan
        }),
    decreases n,
{
    if n == 1 {
        lemma_run_decimal(scan, ports[0]);
        assert(scan.ports + ports.subrange(0, 0) =~= scan.ports);
    } else {
        let before = dotted(ports, (n - 1) as nat);
        let dot = before.push('.');
        let last = decimal(ports[n - 1] as nat);
        lemma_run_dotted(scan, ports, (n - 1) as nat);
        let at_last = scan.run(before, before.len());
        let behind_dot = at_last.step('.');
        assert(scan.run(dot, dot.len()) == behind_dot) by {
            lemma_run_of_prefix(scan, dot, before, before.len());
        }
        assert(behind_dot.ports =~= scan.ports + ports.subrange(0, n - 1));
        lemma_run_in_parts(scan, dot, last, last.len());
        lemma_run_decimal(behind_dot, ports[n - 1]);
    }
}

/// The text of a port path stands for the path, unless the path is that of
/// the port 0 alone, whose text is that of the root hub.
pub proof fn lemma_parsed_rendered(path: PortPathView)
    requires
        path.ports != seq![0u8],
    ensures
        parsed(rendered(path)) == Some(path),
{
    let start = Scan::start();
    let bus = decimal(path.bus as nat);
    let dash = bus.push('-');
    let rest = if path.ports.len() == 0 {
        decimal(0)
    } else {
        dotted(path.ports, path.ports.len())
    };
    lemma_run_decimal(start, path.bus);
    let behind_dash = start.run(bus, bus.len()).step('-');
    assert(start.run(dash, dash.len()) == behind_dash) by {
        lemma_run_of_prefix(start, dash, bus, bus.len());
    }
    lemma_run_in_parts(start, dash, rest, rest.len());
    if path.ports.len() == 0 {
        lemma_run_decimal(behind_dash, 0);
        assert(parsed(rendered(path))->0.ports =~= path.ports);
    } else {
        lemma_run_dotted(behind_dash, path.ports, path.ports.len());
        let n = path.ports.len() as int;
        assert(path.ports.subrange(0, n - 1).push(path.ports[n - 1]) =~= path.ports);
        assert(Seq::<u8>::empty() + path.ports.subrange(0, n - 1) =~= path.ports.subrange(0, n - 1));
        if n == 1 {
            assert(path.ports[0] != 0) by {
                if path.ports[0] == 0 {
                    assert(path.ports =~= seq![0u8]);
                }
            }
        }
    }
}

/// The text of the path that a text stands for, stands for the same path.
pub proof fn lemma_parse_render_parse(text: Seq<char>)
    requires
        parsed(text) is Some,
    ensures
        parsed(rendered(parsed(text)->0)) == parsed(text),
{
    let end = Scan::start().run(text, text.len());
    let path = parsed(text)->0;
    if path.ports.len() == 1 {
        assert(path.ports[0] == end.number->0);
        assert(path.ports != seq![0u8]);
    } else {
        assert(seq![0u8].len() == 1);
    }
    lemma_parsed_rendered(path);
}

/// Appends the decimal digits of `n` to the text.
fn push_decimal(text: &mut String, n: u8)
    ensures
        final(text)@ == old(text)@ + decimal(n as nat),
{
    reveal_with_fuel(decimal, 3);
    if n >= 100 {
        push_char(text, (48 + n / 100) as char);
    }
    if n >= 10 {
        push_char(text, (48 + n / 10 % 10) as char);
    }
    push_char(text, (48 + n % 10) as char);
    assert(text@ =~= old(text)@ + decimal(n as nat));
}

impl PortPath {
    /// The text of the port path: the bus, a dash, and the ports with a dot
    /// between two of them; in place of the ports of a root hub stands a zero.
    pub fn to_string(&self) -> (text: String)
        ensures
            text@ == rendered(self@),
    {
        let mut text = String::new();
        push_decimal(&mut text, self.bus);
        push_char(&mut text, '-');
        if self.ports.len() == 0 {
            push_decimal(&mut text, 0);
        } else {
            let ghost head = text@;
            push_decimal(&mut text, self.ports[0]);
            let mut i: usize = 1;
            while i < self.ports.len()
                invariant
                    1 <= i <= self.ports.len(),
                    text@ == head + dotted(self.ports@, i as nat),
                decreases self.ports.len() - i,
            {
                push_char(&mut text, '.');
                push_decimal(&mut text, self.ports[i]);
                i = i + 1;
                assert(text@ =~= head + dotted(self.ports@, i as nat));
            }
        }
        text
    }

    /// The port path that the text stands for. The text has to be a bus, a
    /// dash and ports with a dot between two of them, each a number of up to
    /// 255 without leading zeros; the port 0 alone stands for the root hub.
    pub fn parse(text: &str) -> (r: Result<PortPath, Error>)
        ensures
            match r {
                Ok(path) => parsed(text@) == Some(path@),
                Err(e) => e == Error::InvalidPath && parsed(text@) is None,
            },
    {
        let count = text.unicode_len();
        let mut bus: Option<u8> = None;
        let mut ports: Vec<u8> = Vec::new();
        let mut number: Option<u8> = None;
        let mut i: usize = 0;
        while i < count
            invariant
                i <= count,
                count == text@.len(),
                Scan::start().run(text@, i as nat) == (Scan {
                    bus,
                    ports: ports@,
                    number,
                    failed: false,
                }),
            decreases count - i,
        {
            let ghost before = Scan { bus, ports: ports@, number, failed: false };
            let c = text.get_char(i);
            if '0' <= c && c <= '9' {
                let d: u8 = (c as u8) - 48;
                match number {
                    None => {
                        number = Some(d);
                    },
                    Some(v) => {
                        if v == 0 || v > 25 || (v == 25 && d > 5) {
                            proof {
                                lemma_failure_stays(before.step(c), text@, (i + 1) as nat, count as nat);
                            }
                            return Err(Error::InvalidPath);
                        }
                        number = Some(v * 10 + d);
                    },
                }
            } else if c == '-' {
                match (bus, number) {
                    (None, Some(v)) => {
                        bus = Some(v);
                        number = None;
                    },
                    _ => {
                        proof {
                            lemma_failure_stays(before.step(c), text@, (i + 1) as nat, count as nat);
                        }
                        return Err(Error::InvalidPath);
                    },
                }
            } else if c == '.' {
                match (bus, number) {
                    (Some(_), Some(v)) => {
                        ports.push(v);
                        number = None;
                    },
                    _ => {
                        proof {
                            lemma_failure_stays(before.step(c), text@, (i + 1) as nat, count as nat);
                        }
                        return Err(Error::InvalidPath);
                    },
                }
            } else {
                proof {
                    lemma_failure_stays(before.step(c), text@, (i + 1) as nat, count as nat);
                }
                return Err(Error::InvalidPath);
            }
            i = i + 1;
        }
        let ghost end = Scan::start().run(text@, text@.len());
        assert(end == (Scan { bus, ports: ports@, number, failed: false }));
        match (bus, number) {
            (Some(bus), Some(last)) => {
                if !(ports.len() == 0 && last == 0) {
                    ports.push(last);
                }
                let path = PortPath { bus, ports };
                assert(end.path()->0.ports =~= path@.ports);
                Ok(path)
            },
            _ => Err(Error::InvalidPath),
        }
    }
}

/// A reading that has failed with the first `n` characters has failed with all.
pub proof fn lemma_failure_stays(failed: Scan, text: Seq<char>, n: nat, m: nat)
    requires
        n <= m,
        Scan::start().run(text, n) == failed,
        failed.failed,
    ensures
        Scan::start().run(text, m).failed,
    decreases m,
{
    if n < m {
        lemma_failure_stays(failed, text, n, (m - 1) as nat);
    }
}

} // verus!
