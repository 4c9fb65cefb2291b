//! The backend's configuration and the command line of the C compiler step.

use vstd::prelude::*;
use vstd::string::{StrSliceExecFns, StringExecFns};

verus! {

/// The pieces of `s` between occurrences of `c`, as `str::split` gives them:
/// always at least one, possibly empty.
pub open spec fn split_char(s: Seq<char>, c: char) -> Seq<Seq<char>>
    decreases s.len(),
{
    if s.len() == 0 {
        seq![Seq::empty()]
    } else {
        let prev = split_char(s.drop_last(), c);
        if s.last() == c {
            prev.push(Seq::empty())
        } else {
            prev.update(prev.len() - 1, prev.last().push(s.last()))
        }
    }
}

proof fn lemma_split_nonempty(s: Seq<char>, c: char)
    ensures
        split_char(s, c).len() >= 1,
    decreases s.len(),
{
    if s.len() > 0 {
        lemma_split_nonempty(s.drop_last(), c);
    }
}

/// The views of a sequence of strings.
pub open spec fn views(v: Seq<String>) -> Seq<Seq<char>> {
    v.map_values(|p: String| p@)
}

/// Splits `s` at each `c`.
pub fn split_at_char(s: &str, c: char) -> (r: Vec<String>)
    ensures
        views(r@) == split_char(s@, c),
{
    let n = s.unicode_len();
    let mut pieces: Vec<String> = Vec::new();
    let mut start: usize = 0;
    let mut i: usize = 0;
    assert(views(pieces@) =~= Seq::<Seq<char>>::empty());
    assert(s@.subrange(0, 0) =~= Seq::<char>::empty());
    assert(views(pieces@).push(s@.subrange(0, 0)) =~= split_char(s@.subrange(0, 0), c));
    while i < n
        invariant
            n == s@.len(),
            start <= i <= n,
            views(pieces@).push(s@.subrange(start as int, i as int)) == split_char(
                s@.subrange(0, i as int),
                c,
            ),
        decreases n - i,
    {
        let ghost prev_pieces = views(pieces@);
        proof {
            lemma_split_nonempty(s@.subrange(0, i as int), c);
            assert(s@.subrange(0, i + 1).drop_last() =~= s@.subrange(0, i as int));
            assert(s@.subrange(0, i + 1).last() == s@[i as int]);
            assert(s@.subrange(start as int, i as int).push(s@[i as int]) =~= s@.subrange(
                start as int,
                i + 1,
            ));
            assert(s@.subrange(i + 1, i + 1) =~= Seq::<char>::empty());
        }
        if s.get_char(i) == c {
            let piece = String::from_str(s.substring_char(start, i));
            pieces.push(piece);
            assert(views(pieces@) =~= prev_pieces.push(s@.subrange(start as int, i as int)));
            start = i + 1;
            assert(views(pieces@).push(s@.subrange(start as int, i + 1)) =~= split_char(
                s@.subrange(0, i + 1),
                c,
            ));
        } else {
            assert(views(pieces@).push(s@.subrange(start as int, i + 1)) =~= split_char(
                s@.subrange(0, i + 1),
                c,
            ));
        }
        i = i + 1;
    }
    let last = String::from_str(s.substring_char(start, n));
    let ghost before = views(pieces@);
    pieces.push(last);
    assert(views(pieces@) =~= before.push(s@.subrange(start as int, n as int)));
    assert(s@.subrange(0, n as int) =~= s@);
    pieces
}

/// The position of the first `=` in `s`, if any.
pub open spec fn first_eq(s: Seq<char>) -> Option<int> {
    if exists|i: int| 0 <= i < s.len() && s[i] == '=' {
        Some(
            choose|i: int|
                0 <= i < s.len() && s[i] == '=' && forall|j: int| 0 <= j < i ==> s[j] != '=',
        )
    } else {
        None
    }
}

proof fn lemma_first_eq(s: Seq<char>, i: int)
    requires
        0 <= i < s.len(),
        s[i] == '=',
        forall|j: int| 0 <= j < i ==> s[j] != '=',
    ensures
        first_eq(s) == Some(i),
{
    let k = choose|k: int|
        0 <= k < s.len() && s[k] == '=' && forall|j: int| 0 <= j < k ==> s[j] != '=';
    assert(0 <= k < s.len() && s[k] == '=' && forall|j: int| 0 <= j < k ==> s[j] != '=');
    if k < i {
        assert(s[k] != '=');
    }
    if i < k {
        assert(s[i] != '=');
    }
}

/// The configuration as plain text: the compiler and its extra flags.
pub struct ConfigV {
    pub cc: Seq<char>,
    pub cflags: Seq<Seq<char>>,
}

/// The configuration after one `key=value` option; `None` when the option
/// is not understood (it then changes nothing).
pub open spec fn apply_option(cfg: ConfigV, opt: Seq<char>) -> Option<ConfigV> {
    match first_eq(opt) {
        Some(p) => {
            let key = opt.subrange(0, p);
            let value = opt.subrange(p + 1, opt.len() as int);
            if key == "cc"@ {
                Some(ConfigV { cc: value, ..cfg })
            } else if key == "cflags"@ {
                Some(ConfigV { cflags: split_char(value, ' '), ..cfg })
            } else {
                None
            }
        },
        None => None,
    }
}

/// Configuration for the C backend.
#[derive(Clone, Debug)]
pub struct BackendConfig {
    /// The C compiler to run.
    pub cc: String,
    /// Additional flags for the C compiler.
    pub cflags: Vec<String>,
}

impl View for BackendConfig {
    type V = ConfigV;

    open spec fn view(&self) -> ConfigV {
        ConfigV { cc: self.cc@, cflags: views(self.cflags@) }
    }
}

fn is_key(key: &str, expected: &str) -> (r: bool)
    ensures
        r == (key@ == expected@),
{
    let n = key.unicode_len();
    if n != expected.unicode_len() {
        return false;
    }
    let mut i: usize = 0;
    while i < n
        invariant
            n == key@.len(),
            n == expected@.len(),
            i <= n,
            forall|j: int| 0 <= j < i ==> key@[j] == expected@[j],
        decreases n - i,
    {
        if key.get_char(i) != expected.get_char(i) {
            return false;
        }
        i = i + 1;
    }
    assert(key@ =~= expected@);
    true
}

impl BackendConfig {
    /// The defaults: `clang`, no extra flags.
    pub fn new() -> (r: BackendConfig)
        ensures
            r@.cc == "clang"@,
            r@.cflags == Seq::<Seq<char>>::empty(),
    {
        let r = BackendConfig { cc: String::from_str("clang"), cflags: Vec::new() };
        assert(r@.cflags =~= Seq::<Seq<char>>::empty());
        r
    }

    /// Takes the compiler and the flags from the environment's values, where
    /// set (`CC`, and `CFLAGS` split at spaces).
    pub fn apply_env(&mut self, cc: Option<String>, cflags: Option<String>)
        ensures
            final(self)@.cc == match cc {
                Some(c) => c@,
                None => old(self)@.cc,
            },
            final(self)@.cflags == match cflags {
                Some(f) => split_char(f@, ' '),
                None => old(self)@.cflags,
            },
    {
        match cc {
            Some(c) => {
                self.cc = c;
            },
            None => {},
        }
        match cflags {
            Some(f) => {
                self.cflags = split_at_char(f.as_str(), ' ');
            },
            None => {},
        }
    }

    /// Applies one `key=value` option (`cc=...` or `cflags=...`); returns
    /// whether it was understood.
    pub fn apply_option(&mut self, opt: &str) -> (r: bool)
        ensures
            r == apply_option(old(self)@, opt@) is Some,
            r ==> final(self)@ == apply_option(old(self)@, opt@)->Some_0,
            !r ==> final(self)@ == old(self)@,
    {
        let n = opt.unicode_len();
        let mut p: usize = 0;
        while p < n && opt.get_char(p) != '='
            invariant
                n == opt@.len(),
                p <= n,
                forall|j: int| 0 <= j < p ==> opt@[j] != '=',
            decreases n - p,
        {
            p = p + 1;
        }
        if p == n {
            assert(first_eq(opt@) is None);
            return false;
        }
        proof {
            lemma_first_eq(opt@, p as int);
        }
        let key = opt.substring_char(0, p);
        let value = opt.substring_char(p + 1, n);
        if is_key(key, "cc") {
            self.cc = String::from_str(value);
            true
        } else if is_key(key, "cflags") {
            self.cflags = split_at_char(value, ' ');
            true
        } else {
            false
        }
    }

    /// Applies each option in turn and returns those not understood, in order.
    pub fn apply_options(&mut self, opts: &Vec<String>) -> (r: Vec<String>)
        ensures
            (final(self)@, views(r@)) == apply_all(old(self)@, views(opts@), opts@.len()),
    {
        let mut unknown: Vec<String> = Vec::new();
        let mut i: usize = 0;
        assert(views(unknown@) =~= Seq::<Seq<char>>::empty());
        while i < opts.len()
            invariant
                i <= opts@.len(),
                (self@, views(unknown@)) == apply_all(old(self)@, views(opts@), i as nat),
            decreases opts@.len() - i,
        {
            let ghost before = unknown@;
            if !self.apply_option(opts[i].as_str()) {
                let c = opts[i].clone();
                unknown.push(c);
                assert(views(unknown@) =~= views(before).push(opts@[i as int]@));
            }
            i = i + 1;
        }
        unknown
    }
}

/// Applying the first `n` options in turn: the configuration afterwards and
/// the options not understood, in order.
pub open spec fn apply_all(cfg: ConfigV, opts: Seq<Seq<char>>, n: nat) -> (ConfigV, Seq<Seq<char>>)
    decreases n,
{
    if n == 0 || n > opts.len() {
        (cfg, Seq::empty())
    } else {
        let (c, unknown) = apply_all(cfg, opts, (n - 1) as nat);
        match apply_option(c, opts[n - 1]) {
            Some(c2) => (c2, unknown),
            None => (c, unknown.push(opts[n - 1])),
        }
    }
}

/// Optimization levels of the C compiler step.
#[derive(Clone, Copy, Debug, PartialEq, Eq, Structural)]
pub enum OptLevel {
    No,
    Less,
    Default,
    Aggressive,
    Size,
    SizeMin,
}

pub open spec fn spec_opt_flag(o: OptLevel) -> &'static str {
    match o {
        OptLevel::No => "-O0",
        OptLevel::Less => "-O1",
        OptLevel::Default => "-O2",
        OptLevel::Aggressive => "-O3",
        OptLevel::Size => "-Os",
        OptLevel::SizeMin => "-Oz",
    }
}

/// The compiler flag of an optimization level.
pub fn opt_flag(o: OptLevel) -> (r: &'static str)
    ensures
        r == spec_opt_flag(o),
{
    match o {
        OptLevel::No => "-O0",
        OptLevel::Less => "-O1",
        OptLevel::Default => "-O2",
        OptLevel::Aggressive => "-O3",
        OptLevel::Size => "-Os",
        OptLevel::SizeMin => "-Oz",
    }
}

/// The arguments of the C compiler to turn `c_out` into the object file
/// `obj_out`: `c_out -o obj_out -c`, the extra flags, then the optimization
/// flag if a level is given.
pub fn compile_args(c_out: &str, obj_out: &str, cflags: &Vec<String>, opt: Option<OptLevel>) -> (r:
    Vec<String>)
    ensures
        views(r@) == seq![c_out@, "-o"@, obj_out@, "-c"@] + views(cflags@) + match opt {
            Some(o) => seq![spec_opt_flag(o)@],
            None => Seq::empty(),
        },
{
    let mut r: Vec<String> = Vec::new();
    r.push(String::from_str(c_out));
    r.push(String::from_str("-o"));
    r.push(String::from_str(obj_out));
    r.push(String::from_str("-c"));
    let ghost head = views(r@);
    assert(head =~= seq![c_out@, "-o"@, obj_out@, "-c"@]);
    let mut i: usize = 0;
    while i < cflags.len()
        invariant
            i <= cflags@.len(),
            views(r@) == head + views(cflags@).subrange(0, i as int),
        decreases cflags@.len() - i,
    {
        let c = cflags[i].clone();
        assert(c@ == cflags@[i as int]@);
        let ghost before = r@;
        r.push(c);
        assert(r@ =~= before.push(c));
        assert(views(r@) =~= views(before).push(c@));
        assert(views(cflags@).subrange(0, i + 1) =~= views(cflags@).subrange(0, i as int).push(
            cflags@[i as int]@,
        ));
        assert(views(r@) =~= head + views(cflags@).subrange(0, i + 1));
        i = i + 1;
    }
    assert(views(cflags@).subrange(0, cflags@.len() as int) =~= views(cflags@));
    let ghost body = views(r@);
    match opt {
        Some(o) => {
            r.push(String::from_str(opt_flag(o)));
            assert(views(r@) =~= body + seq![spec_opt_flag(o)@]);
        },
        None => {
            assert(body + Seq::<Seq<char>>::empty() =~= body);
        },
    }
    r
}

} // verus!
