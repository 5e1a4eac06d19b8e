//! Stack profiles and their rendering.
//!
//! A [`StackProfile`] collects weighted stacks with optional annotations.
//! It renders to the `.mzfg` flame-graph format, optionally appending a
//! symbolication section that maps each distinct address to the symbol
//! names resolved for it in this process.

use std::collections::BTreeMap;

use vstd::prelude::*;

use crate::text::str_eq;

verus! {

/// The moment profiling started.
#[derive(Copy, Clone, Debug)]
pub enum ProfStartTime {
    /// Profiling started at a known instant.
    Instant(std::time::Instant),
    /// Profiling has been running since process start.
    TimeImmemorial,
}

/// Relies on `std::time::Instant` only as an opaque value: the library
/// stores and hands it back, and never inspects it.
#[verifier::external_type_specification]
#[verifier::external_body]
pub struct ExInstant(std::time::Instant);

/// The abstract contents of a [`WeightedStack`].
pub struct WeightedStackV {
    /// The frame addresses, outermost first.
    pub addrs: Seq<usize>,
    /// The decimal rendering of the sample weight.
    pub weight: Seq<char>,
}

/// One sampled stack and its weight.
#[derive(Clone, Debug)]
pub struct WeightedStack {
    /// The frame addresses, outermost first.
    pub addrs: Vec<usize>,
    /// The decimal rendering of the sample weight.
    pub weight: String,
}

impl View for WeightedStack {
    type V = WeightedStackV;

    open spec fn view(&self) -> WeightedStackV {
        WeightedStackV { addrs: self.addrs@, weight: self.weight@ }
    }
}

/// The abstract contents of a [`StackProfile`]: the annotation table and
/// the stacks, each with the index of its annotation, if one exists.
pub struct StackProfileV {
    /// The annotation table.
    pub annotations: Seq<Seq<char>>,
    /// The stacks; the second element is the index in `annotations`, if
    /// one exists.
    pub stacks: Seq<(WeightedStackV, Option<usize>)>,
}

impl StackProfileV {
    /// Every annotation index points into the annotation table.
    pub open spec fn wf(self) -> bool {
        forall|i: int|
            0 <= i < self.stacks.len() ==> (#[trigger] self.stacks[i].1 matches Some(k)
                ==> (k as int) < self.annotations.len())
    }
}

/// A profile of weighted stacks with optional annotations.
pub struct StackProfile {
    annotations: Vec<String>,
    // The second element is the index in `annotations`, if one exists.
    stacks: Vec<(WeightedStack, Option<usize>)>,
}

impl View for StackProfile {
    type V = StackProfileV;

    closed spec fn view(&self) -> StackProfileV {
        StackProfileV {
            annotations: self.annotations@.map_values(|s: String| s@),
            stacks: self.stacks@.map_values(|p: (WeightedStack, Option<usize>)| (p.0@, p.1)),
        }
    }
}

impl Default for StackProfile {
    /// The empty profile.
    fn default() -> (r: Self)
        ensures
            r@.annotations.len() == 0,
            r@.stacks.len() == 0,
            r@.wf(),
    {
        let r = StackProfile { annotations: Vec::new(), stacks: Vec::new() };
        proof {
            assert(r@.annotations =~= Seq::<Seq<char>>::empty());
            assert(r@.stacks =~= Seq::<(WeightedStackV, Option<usize>)>::empty());
        }
        r
    }
}

/// Whether `i` is the first index of `a` in the annotation table `annos`.
pub open spec fn first_match(annos: Seq<Seq<char>>, a: Seq<char>, i: int) -> bool {
    &&& 0 <= i < annos.len()
    &&& annos[i] == a
    &&& forall|j: int| 0 <= j < i ==> annos[j] != a
}

/// The first position of `a` in `annos`, if `a` occurs there.
fn position_of(annos: &Vec<String>, a: &str) -> (r: Option<usize>)
    ensures
        match r {
            Some(i) => (i as int) < annos@.len() && annos@[i as int]@ == a@ && forall|j: int|
                0 <= j < i ==> annos@[j]@ != a@,
            None => forall|j: int| 0 <= j < annos@.len() ==> annos@[j]@ != a@,
        },
{
    let mut i: usize = 0;
    while i < annos.len()
        invariant
            i <= annos@.len(),
            forall|j: int| 0 <= j < i ==> annos@[j]@ != a@,
        decreases annos@.len() - i,
    {
        if str_eq(annos[i].as_str(), a) {
            return Some(i);
        }
        i = i + 1;
    }
    None
}

impl StackProfile {
    /// Record one weighted stack, interning its annotation: an annotation
    /// already in the table is referenced by its first index, a new one is
    /// appended.
    pub fn push(&mut self, stack: WeightedStack, annotation: Option<&str>)
        ensures
            old(self)@.wf() ==> final(self)@.wf(),
            match annotation {
                None => final(self)@.annotations == old(self)@.annotations && final(self)@.stacks
                    == old(self)@.stacks.push((stack@, None::<usize>)),
                Some(a) => {
                    if exists|i: int| first_match(old(self)@.annotations, a@, i) {
                        exists|i: int|
                            {
                                &&& first_match(old(self)@.annotations, a@, i)
                                &&& final(self)@.annotations == old(self)@.annotations
                                &&& final(self)@.stacks == old(self)@.stacks.push(
                                    (stack@, Some(i as usize)),
                                )
                            }
                    } else {
                        &&& final(self)@.annotations == old(self)@.annotations.push(a@)
                        &&& final(self)@.stacks == old(self)@.stacks.push(
                            (stack@, Some(old(self)@.annotations.len() as usize)),
                        )
                    }
                },
            },
    {
        let ghost old_v = self@;
        let anno_idx: Option<usize> = match annotation {
            Some(annotation_str) => {
                match position_of(&self.annotations, annotation_str) {
                    Some(i) => {
                        proof {
                            assert(first_match(old_v.annotations, annotation_str@, i as int));
                        }
                        Some(i)
                    },
                    None => {
                        self.annotations.push(annotation_str.to_owned());
                        proof {
                            assert(self@.annotations =~= old_v.annotations.push(annotation_str@));
                        }
                        Some(self.annotations.len() - 1)
                    },
                }
            },
            None => None,
        };
        proof {
            assert(match anno_idx {
                Some(k) => (k as int) < self@.annotations.len(),
                None => true,
            });
            assert(old_v.annotations.len() <= self@.annotations.len());
        }
        let ghost mid_annos = self@.annotations;
        self.stacks.push((stack, anno_idx));
        proof {
            assert(self@.stacks =~= StackProfileV {
                annotations: self@.annotations,
                stacks: old_v.stacks,
            }.stacks.push((stack@, anno_idx)));
            assert(forall|j: int|
                0 <= j < old_v.stacks.len() ==> self@.stacks[j] == old_v.stacks[j]);
            assert(self@.stacks =~= old_v.stacks.push((stack@, anno_idx)));
            assert(self@.annotations == mid_annos);
            if old_v.wf() {
                assert forall|i: int| 0 <= i < self@.stacks.len() implies (
                #[trigger] self@.stacks[i].1 matches Some(k) ==> (k as int)
                    < self@.annotations.len()) by {
                    if i < old_v.stacks.len() {
                        assert(self@.stacks[i] == old_v.stacks[i]);
                        assert(old_v.stacks[i].1 matches Some(k) ==> (k as int)
                            < old_v.annotations.len());
                    } else {
                        assert(self@.stacks[i] == (stack@, anno_idx));
                    }
                }
                assert(self@.wf());
            }
        }
    }

    /// Iterate over the recorded stacks and their annotations.
    pub fn iter(&self) -> (r: StackProfileIter<'_>)
        requires
            self@.wf(),
        ensures
            r.profile() == self@,
            r.pos() == 0,
            r.wf(),
    {
        StackProfileIter { inner: self, idx: 0 }
    }
}

/// A cursor over the stacks of a [`StackProfile`].
pub struct StackProfileIter<'a> {
    inner: &'a StackProfile,
    idx: usize,
}

impl<'a> StackProfileIter<'a> {
    /// The profile being iterated.
    pub closed spec fn profile(self) -> StackProfileV {
        self.inner@
    }

    /// The position of the cursor.
    pub closed spec fn pos(self) -> int {
        self.idx as int
    }

    /// The iterated profile is well formed.
    pub open spec fn wf(self) -> bool {
        self.profile().wf()
    }

    /// The next stack and its annotation, if any stacks remain.
    pub fn next(&mut self) -> (r: Option<(&'a WeightedStack, Option<&'a str>)>)
        requires
            old(self).wf(),
        ensures
            final(self).wf(),
            final(self).profile() == old(self).profile(),
            old(self).pos() < old(self).profile().stacks.len() ==> {
                &&& final(self).pos() == old(self).pos() + 1
                &&& r matches Some(pair) && pair.0@ == old(self).profile().stacks[old(
                    self,
                ).pos()].0 && (match old(self).profile().stacks[old(self).pos()].1 {
                    Some(k) => pair.1 matches Some(anno) && anno@ == old(
                        self,
                    ).profile().annotations[k as int],
                    None => pair.1 is None,
                })
            },
            old(self).pos() >= old(self).profile().stacks.len() ==> r is None && final(self).pos()
                == old(self).pos(),
    {
        if self.idx < self.inner.stacks.len() {
            let entry = &self.inner.stacks[self.idx];
            let anno: Option<&'a str> = match &entry.1 {
                Some(k) => Some(self.inner.annotations[*k].as_str()),
                None => None,
            };
            self.idx = self.idx + 1;
            Some((&entry.0, anno))
        } else {
            None
        }
    }
}

/// Tracks whether symbolication has ever been run through this state.
///
/// Symbolication keeps a one-time cache of parsed images, so a caller may
/// want to warn about the increased memory usage exactly once.
pub struct SymbolicationState {
    symbolicated: bool,
}

impl SymbolicationState {
    /// Whether symbolication has run.
    pub closed spec fn is_symbolicated(&self) -> bool {
        self.symbolicated
    }

    /// A state in which symbolication has not yet run.
    pub fn new() -> (r: Self)
        ensures
            !r.is_symbolicated(),
    {
        SymbolicationState { symbolicated: false }
    }
}

/// Check whether symbolication has ever been run through `state`.
///
/// This controls whether a caller displays a warning about increased
/// memory usage due to the symbol cache: the hit is one-time, so there is
/// no need to warn if it has already happened.
pub fn ever_symbolicated(state: &SymbolicationState) -> (r: bool)
    ensures
        r == state.is_symbolicated(),
{
    state.symbolicated
}


/// The character for one hex digit.
pub open spec fn hex_digit(d: int) -> char {
    if d == 0 { '0' }
    else if d == 1 { '1' }
    else if d == 2 { '2' }
    else if d == 3 { '3' }
    else if d == 4 { '4' }
    else if d == 5 { '5' }
    else if d == 6 { '6' }
    else if d == 7 { '7' }
    else if d == 8 { '8' }
    else if d == 9 { '9' }
    else if d == 10 { 'a' }
    else if d == 11 { 'b' }
    else if d == 12 { 'c' }
    else if d == 13 { 'd' }
    else if d == 14 { 'e' }
    else { 'f' }
}

/// The hex digits of `n`, most significant first, no leading zeros.
pub open spec fn hex_digits(n: nat) -> Seq<char>
    decreases n,
{
    if n < 16 {
        seq![hex_digit(n as int)]
    } else {
        hex_digits(n / 16) + seq![hex_digit((n % 16) as int)]
    }
}

/// The `0x`-prefixed hex rendering of an address.
pub open spec fn hex_addr(n: nat) -> Seq<char> {
    seq!['0', 'x'] + hex_digits(n)
}

/// The `addr;addr;` prefix of a stack line.
pub open spec fn addrs_part(addrs: Seq<usize>) -> Seq<char>
    decreases addrs.len(),
{
    if addrs.len() == 0 {
        Seq::empty()
    } else {
        addrs_part(addrs.drop_last()) + hex_addr(addrs.last() as nat) + seq![';']
    }
}

/// One rendered stack line: the addresses, the weight, and the optional
/// annotation.
pub open spec fn stack_line(ws: WeightedStackV, anno: Option<Seq<char>>) -> Seq<char> {
    addrs_part(ws.addrs) + seq![' '] + ws.weight + (match anno {
        Some(a) => seq![' '] + a,
        None => Seq::empty(),
    }) + seq!['\n']
}

/// The annotation text of stack `i`, if it has one.
pub open spec fn anno_text(p: StackProfileV, i: int) -> Option<Seq<char>> {
    match p.stacks[i].1 {
        Some(k) => Some(p.annotations[k as int]),
        None => None,
    }
}

/// The rendered lines of the first `i` stacks.
pub open spec fn stack_lines_upto(p: StackProfileV, i: int) -> Seq<char>
    decreases i,
{
    if i <= 0 {
        Seq::empty()
    } else {
        stack_lines_upto(p, i - 1) + stack_line(p.stacks[i - 1].0, anno_text(p, i - 1))
    }
}

/// The contents of the extra header pairs.
pub open spec fn header_views<'a, 'b>(h: Seq<(&'a str, &'b str)>) -> Seq<(Seq<char>, Seq<char>)> {
    h.map_values(|p: (&str, &str)| (p.0@, p.1@))
}

/// The rendered `key: value` header lines.
pub open spec fn header_lines(pairs: Seq<(Seq<char>, Seq<char>)>) -> Seq<char>
    decreases pairs.len(),
{
    if pairs.len() == 0 {
        Seq::empty()
    } else {
        header_lines(pairs.drop_last()) + pairs.last().0 + seq![':', ' '] + pairs.last().1
            + seq!['\n']
    }
}

/// The whole rendering of a profile without the symbolication section.
pub open spec fn mzfg_of(p: StackProfileV, pairs: Seq<(Seq<char>, Seq<char>)>) -> Seq<char> {
    "!!! COMMENT !!!: Open with bin/fgviz /path/to/mzfg\nmz_fg_version: 1\n"@ + header_lines(pairs)
        + seq!['\n'] + stack_lines_upto(p, p.stacks.len() as int)
}

/// A symbol name with backslashes and semicolons escaped, since the
/// rendered format splits names on semicolons.
pub open spec fn escaped(s: Seq<char>) -> Seq<char>
    decreases s.len(),
{
    if s.len() == 0 {
        Seq::empty()
    } else {
        escaped(s.drop_last()) + (if s.last() == '\\' {
            seq!['\\', '\\']
        } else if s.last() == ';' {
            seq!['\\', ';']
        } else {
            seq![s.last()]
        })
    }
}

/// The escaped, `;`-terminated names of one symbolicated address.
pub open spec fn names_part(names: Seq<Seq<char>>) -> Seq<char>
    decreases names.len(),
{
    if names.len() == 0 {
        Seq::empty()
    } else {
        names_part(names.drop_last()) + escaped(names.last()) + seq![';']
    }
}

/// The rendered symbolication lines: one line per address with at least
/// one name.
pub open spec fn symbol_lines(syms: Seq<(usize, Seq<Seq<char>>)>) -> Seq<char>
    decreases syms.len(),
{
    if syms.len() == 0 {
        Seq::empty()
    } else {
        symbol_lines(syms.drop_last()) + (if syms.last().1.len() == 0 {
            Seq::empty()
        } else {
            hex_addr(syms.last().0 as nat) + seq![' '] + names_part(syms.last().1) + seq!['\n']
        })
    }
}

/// Whether address `a` occurs in some stack of the profile.
pub open spec fn addr_in_profile(p: StackProfileV, a: usize) -> bool {
    exists|i: int, j: int|
        0 <= i < p.stacks.len() && 0 <= j < p.stacks[i].0.addrs.len() && p.stacks[i].0.addrs[j]
            == a
}

/// Whether a sequence is strictly increasing.
pub open spec fn sorted_distinct(s: Seq<usize>) -> bool {
    forall|i: int, j: int| 0 <= i < j < s.len() ==> s[i] < s[j]
}

/// The addresses of a symbol table.
pub open spec fn syms_keys(s: Seq<(usize, Seq<Seq<char>>)>) -> Seq<usize> {
    s.map_values(|p: (usize, Seq<Seq<char>>)| p.0)
}

/// Whether `syms` is a symbol table over exactly the distinct addresses
/// of the profile, in increasing order. What names each address maps to
/// depends on the images loaded in this process, so no more is said of
/// the values.
pub open spec fn syms_ok(p: StackProfileV, syms: Seq<(usize, Seq<Seq<char>>)>) -> bool {
    &&& sorted_distinct(syms_keys(syms))
    &&& forall|t: int| 0 <= t < syms.len() ==> addr_in_profile(p, #[trigger] syms[t].0)
    &&& forall|i: int, j: int|
        0 <= i < p.stacks.len() && 0 <= j < p.stacks[i].0.addrs.len() ==> syms_keys(
            syms,
        ).contains(#[trigger] p.stacks[i].0.addrs[j])
}

/// The abstract contents of a resolved symbol table.
pub open spec fn syms_view(s: Seq<(usize, Vec<String>)>) -> Seq<(usize, Seq<Seq<char>>)> {
    s.map_values(|p: (usize, Vec<String>)| (p.0, p.1.deep_view()))
}

/// Relies on `backtrace::resolve`: invokes its callback once per symbol
/// known for the given address, innermost inlined frame first, handing
/// back each symbol's name if it has one. What comes back depends on the
/// images loaded in this process, so nothing is promised of it.
#[verifier::external_body]
fn resolve_addr(addr: usize) -> (syms: Vec<Option<String>>) {
    let mut syms: Vec<Option<String>> = Vec::new();
    backtrace::resolve(core::ptr::with_exposed_provenance_mut(addr), |sym: &backtrace::Symbol| {
        syms.push(sym.name().map(|sn| sn.to_string()));
    });
    syms
}

/// The symbol names resolved for one address, outermost frame first;
/// a symbol without a name is reported as `???`.
fn symbols_for(addr: usize) -> Vec<String> {
    let resolved = resolve_addr(addr);
    let mut names: Vec<String> = Vec::new();
    let mut i: usize = resolved.len();
    while i > 0
        invariant
            i <= resolved.len(),
        decreases i,
    {
        i = i - 1;
        let name = match &resolved[i] {
            Some(n) => n.clone(),
            None => String::from_str("???"),
        };
        names.push(name);
    }
    names
}

/// Insert an address into a strictly increasing sequence, keeping it
/// strictly increasing; an address already present is left alone.
fn insert_sorted(v: &mut Vec<usize>, a: usize)
    requires
        sorted_distinct(old(v)@),
    ensures
        sorted_distinct(final(v)@),
        forall|x: usize| final(v)@.contains(x) <==> (old(v)@.contains(x) || x == a),
{
    let ghost oldv = v@;
    let mut pos: usize = 0;
    while pos < v.len() && v[pos] < a
        invariant
            pos <= v@.len(),
            v@ == oldv,
            sorted_distinct(v@),
            forall|j: int| 0 <= j < pos ==> v@[j] < a,
        decreases v@.len() - pos,
    {
        pos = pos + 1;
    }
    if pos < v.len() && v[pos] == a {
        proof {
            assert(v@[pos as int] == a);
            assert(v@.contains(a));
            assert(forall|x: usize| v@.contains(x) <==> (oldv.contains(x) || x == a));
        }
        return ;
    }
    v.insert(pos, a);
    proof {
        let newv = v@;
        let p = pos as int;
        assert forall|i: int, j: int| 0 <= i < j < newv.len() implies newv[i] < newv[j] by {
            if j < p {
                assert(newv[i] == oldv[i] && newv[j] == oldv[j]);
            } else if i < p && j == p {
                assert(newv[i] == oldv[i] && oldv[i] < a);
            } else if i < p && j > p {
                assert(newv[i] == oldv[i] && newv[j] == oldv[j - 1]);
            } else if i == p {
                assert(newv[j] == oldv[j - 1]);
                assert(p < oldv.len() ==> a < oldv[p]);
                if p <= j - 1 && j - 1 < oldv.len() {
                    assert(p < oldv.len());
                    assert(oldv[p] <= oldv[j - 1]) by {
                        if p < j - 1 {
                            assert(oldv[p] < oldv[j - 1]);
                        }
                    }
                }
            } else {
                assert(newv[i] == oldv[i - 1] && newv[j] == oldv[j - 1]);
            }
        }
        assert forall|x: usize| newv.contains(x) implies (oldv.contains(x) || x == a) by {
            let k = choose|k: int| 0 <= k < newv.len() && newv[k] == x;
            if k < p {
                assert(oldv[k] == x);
                assert(oldv.contains(x));
            } else if k > p {
                assert(oldv[k - 1] == x);
                assert(oldv.contains(x));
            }
        }
        assert forall|x: usize| oldv.contains(x) || x == a implies newv.contains(x) by {
            if x == a {
                assert(newv[p] == x);
            } else {
                let k = choose|k: int| 0 <= k < oldv.len() && oldv[k] == x;
                if k < p {
                    assert(newv[k] == x);
                } else {
                    assert(newv[k + 1] == x);
                }
            }
        }
    }
}

/// The distinct addresses of the profile, in increasing order.
fn collect_addrs(profile: &StackProfile) -> (r: Vec<usize>)
    ensures
        sorted_distinct(r@),
        forall|t: int| 0 <= t < r@.len() ==> addr_in_profile(profile@, #[trigger] r@[t]),
        forall|i: int, j: int|
            0 <= i < profile@.stacks.len() && 0 <= j < profile@.stacks[i].0.addrs.len()
                ==> r@.contains(#[trigger] profile@.stacks[i].0.addrs[j]),
{
    let mut r: Vec<usize> = Vec::new();
    let mut i: usize = 0;
    while i < profile.stacks.len()
        invariant
            i <= profile.stacks@.len(),
            profile@.stacks.len() == profile.stacks@.len(),
            sorted_distinct(r@),
            forall|t: int| 0 <= t < r@.len() ==> addr_in_profile(profile@, #[trigger] r@[t]),
            forall|i2: int, j2: int|
                0 <= i2 < i && 0 <= j2 < profile@.stacks[i2].0.addrs.len() ==> r@.contains(
                    #[trigger] profile@.stacks[i2].0.addrs[j2],
                ),
        decreases profile.stacks@.len() - i,
    {
        let addrs = &profile.stacks[i].0.addrs;
        proof {
            assert(profile@.stacks[i as int].0.addrs == addrs@);
        }
        let mut j: usize = 0;
        while j < addrs.len()
            invariant
                j <= addrs@.len(),
                i < profile.stacks@.len(),
                profile@.stacks.len() == profile.stacks@.len(),
                profile@.stacks[i as int].0.addrs == addrs@,
                addrs == &profile.stacks[i as int].0.addrs,
                sorted_distinct(r@),
                forall|t: int| 0 <= t < r@.len() ==> addr_in_profile(profile@, #[trigger] r@[t]),
                forall|i2: int, j2: int|
                    0 <= i2 < i && 0 <= j2 < profile@.stacks[i2].0.addrs.len() ==> r@.contains(
                        #[trigger] profile@.stacks[i2].0.addrs[j2],
                    ),
                forall|j2: int|
                    0 <= j2 < j ==> r@.contains(#[trigger] profile@.stacks[i as int].0.addrs[j2]),
            decreases addrs@.len() - j,
        {
            let a = addrs[j];
            let ghost r0 = r@;
            insert_sorted(&mut r, a);
            proof {
                assert(addr_in_profile(profile@, a));
                assert forall|t: int|
                    0 <= t < r@.len() implies addr_in_profile(
                    profile@,
                    #[trigger] r@[t],
                ) by {
                    let x = r@[t];
                    assert(r@.contains(x));
                    if r0.contains(x) {
                        let k = choose|k: int| 0 <= k < r0.len() && r0[k] == x;
                        assert(addr_in_profile(profile@, r0[k]));
                    } else {
                        assert(x == a);
                    }
                }
            }
            j = j + 1;
        }
        i = i + 1;
    }
    r
}

/// Resolve the symbols of every distinct address in the profile: the
/// resulting table's addresses are exactly the profile's, in increasing
/// order; the names come from the images loaded in this process.
fn resolve_all(profile: &StackProfile) -> (r: Vec<(usize, Vec<String>)>)
    ensures
        syms_ok(profile@, syms_view(r@)),
{
    let addrs = collect_addrs(profile);
    let mut r: Vec<(usize, Vec<String>)> = Vec::new();
    let mut i: usize = 0;
    while i < addrs.len()
        invariant
            i <= addrs@.len(),
            sorted_distinct(addrs@),
            forall|t: int| 0 <= t < addrs@.len() ==> addr_in_profile(profile@, #[trigger] addrs@[t]),
            forall|i2: int, j2: int|
                0 <= i2 < profile@.stacks.len() && 0 <= j2 < profile@.stacks[i2].0.addrs.len()
                    ==> addrs@.contains(#[trigger] profile@.stacks[i2].0.addrs[j2]),
            r@.len() == i,
            forall|t: int| 0 <= t < i ==> (#[trigger] r@[t]).0 == addrs@[t],
        decreases addrs@.len() - i,
    {
        let a = addrs[i];
        let names = symbols_for(a);
        r.push((a, names));
        i = i + 1;
    }
    proof {
        let sv = syms_view(r@);
        assert(syms_keys(sv).len() == addrs@.len());
        assert forall|t: int| 0 <= t < sv.len() implies syms_keys(sv)[t] == addrs@[t] by {
            assert(sv[t] == (r@[t].0, r@[t].1.deep_view()));
        }
        assert(syms_keys(sv) =~= addrs@);
    }
    r
}


/// Append the hex digits of `n` to `out`, most significant first.
fn push_hex(n: usize, out: &mut String)
    ensures
        final(out)@ == old(out)@ + hex_digits(n as nat),
    decreases n,
{
    if n >= 16 {
        push_hex(n / 16, out);
    }
    let digit: &str = match n % 16 {
        0 => "0",
        1 => "1",
        2 => "2",
        3 => "3",
        4 => "4",
        5 => "5",
        6 => "6",
        7 => "7",
        8 => "8",
        9 => "9",
        10 => "a",
        11 => "b",
        12 => "c",
        13 => "d",
        14 => "e",
        _ => "f",
    };
    proof {
        reveal_strlit("0");
        reveal_strlit("1");
        reveal_strlit("2");
        reveal_strlit("3");
        reveal_strlit("4");
        reveal_strlit("5");
        reveal_strlit("6");
        reveal_strlit("7");
        reveal_strlit("8");
        reveal_strlit("9");
        reveal_strlit("a");
        reveal_strlit("b");
        reveal_strlit("c");
        reveal_strlit("d");
        reveal_strlit("e");
        reveal_strlit("f");
        assert(digit@ =~= seq![hex_digit(((n as nat) % 16) as int)]);
    }
    out.append(digit);
    proof {
        if n < 16 {
            assert(hex_digits(n as nat) =~= seq![hex_digit(n as int)]);
            assert(final(out)@ =~= old(out)@ + hex_digits(n as nat));
        } else {
            assert(hex_digits(n as nat) =~= hex_digits((n as nat) / 16) + seq![
                hex_digit(((n as nat) % 16) as int),
            ]);
            assert(final(out)@ =~= old(out)@ + hex_digits(n as nat));
        }
    }
}

/// Append `0x` and the hex digits of `addr` to `out`.
fn push_hex_addr(addr: usize, out: &mut String)
    ensures
        final(out)@ == old(out)@ + hex_addr(addr as nat),
{
    out.append("0x");
    proof {
        reveal_strlit("0x");
    }
    push_hex(addr, out);
    proof {
        assert(final(out)@ =~= old(out)@ + hex_addr(addr as nat));
    }
}

/// Append `name` to `out`, escaping backslashes and semicolons.
fn push_escaped(name: &str, out: &mut String)
    ensures
        final(out)@ == old(out)@ + escaped(name@),
{
    let n = name.unicode_len();
    let mut i: usize = 0;
    while i < n
        invariant
            i <= n,
            n == name@.len(),
            out@ == old(out)@ + escaped(name@.take(i as int)),
        decreases n - i,
    {
        let c = name.get_char(i);
        if c == '\\' {
            out.append("\\\\");
            proof {
                reveal_strlit("\\\\");
            }
        } else if c == ';' {
            out.append("\\;");
            proof {
                reveal_strlit("\\;");
            }
        } else {
            let piece = name.substring_char(i, i + 1);
            proof {
                assert(piece@ =~= seq![name@[i as int]]);
            }
            out.append(piece);
        }
        i = i + 1;
        proof {
            assert(name@.take(i as int).drop_last() =~= name@.take(i as int - 1));
            assert(name@.take(i as int).last() == name@[i as int - 1]);
            assert(out@ =~= old(out)@ + escaped(name@.take(i as int)));
        }
    }
    proof {
        assert(name@.take(n as int) =~= name@);
    }
}

/// Append the rendered symbolication section for `syms` to `out`.
fn push_symbol_lines(syms: &Vec<(usize, Vec<String>)>, out: &mut String)
    ensures
        final(out)@ == old(out)@ + symbol_lines(syms_view(syms@)),
{
    let mut t: usize = 0;
    while t < syms.len()
        invariant
            t <= syms@.len(),
            out@ == old(out)@ + symbol_lines(syms_view(syms@).take(t as int)),
        decreases syms@.len() - t,
    {
        let entry = &syms[t];
        if !entry.1.is_empty() {
            push_hex_addr(entry.0, out);
            out.append(" ");
            proof {
                reveal_strlit(" ");
            }
            let ghost before_names = out@;
            let mut u: usize = 0;
            while u < entry.1.len()
                invariant
                    u <= entry.1@.len(),
                    entry == &syms@[t as int],
                    t < syms@.len(),
                    out@ == before_names + names_part(entry.1.deep_view().take(u as int)),
                decreases entry.1@.len() - u,
            {
                push_escaped(entry.1[u].as_str(), out);
                out.append(";");
                u = u + 1;
                proof {
                    reveal_strlit(";");
                    assert(entry.1.deep_view().take(u as int).drop_last() =~= entry
                        .1
                        .deep_view()
                        .take(u as int - 1));
                    assert(entry.1.deep_view().take(u as int).last() == entry.1@[u as int - 1]@);
                    assert(out@ =~= before_names + names_part(entry.1.deep_view().take(u as int)));
                }
            }
            out.append("\n");
            proof {
                reveal_strlit("\n");
                assert(entry.1.deep_view().take(entry.1@.len() as int) =~= entry.1.deep_view());
            }
        }
        t = t + 1;
        proof {
            assert(syms_view(syms@).take(t as int).drop_last() =~= syms_view(syms@).take(
                t as int - 1,
            ));
            let prev = syms@[t as int - 1];
            assert(syms_view(syms@).take(t as int).last() == (prev.0, prev.1.deep_view()));
            assert(prev.1.deep_view().len() == prev.1@.len());
            assert(out@ =~= old(out)@ + symbol_lines(syms_view(syms@).take(t as int)));
        }
    }
    proof {
        assert(syms_view(syms@).take(syms@.len() as int) =~= syms_view(syms@));
    }
}

impl StackProfile {
    /// Render the profile in the `.mzfg` flame-graph format: a fixed
    /// preamble, the extra header pairs, one line per recorded stack,
    /// and, when `symbolicate` is set, a section mapping each distinct
    /// address to its escaped symbol names. Symbolicating marks `state`.
    ///
    /// Header keys must not contain `:` or line breaks, and header
    /// values must not contain line breaks.
    pub fn to_mzfg(
        &self,
        symbolicate: bool,
        header_extra: &[(&str, &str)],
        state: &mut SymbolicationState,
    ) -> (r: String)
        requires
            self@.wf(),
            forall|k: int|
                0 <= k < header_extra@.len() ==> {
                    &&& !(#[trigger] header_extra@[k]).0@.contains(':')
                    &&& !header_extra@[k].0@.contains('\n')
                    &&& !header_extra@[k].1@.contains('\n')
                },
        ensures
            final(state).is_symbolicated() == (old(state).is_symbolicated() || symbolicate),
            !symbolicate ==> r@ == mzfg_of(self@, header_views(header_extra@)),
            symbolicate ==> exists|syms: Seq<(usize, Seq<Seq<char>>)>|
                {
                    &&& syms_ok(self@, syms)
                    &&& r@ == mzfg_of(self@, header_views(header_extra@)) + seq!['\n']
                        + symbol_lines(syms)
                },
    {
        let mut builder = String::from_str(
            "!!! COMMENT !!!: Open with bin/fgviz /path/to/mzfg\nmz_fg_version: 1\n",
        );
        let mut k: usize = 0;
        while k < header_extra.len()
            invariant
                k <= header_extra@.len(),
                builder@ == "!!! COMMENT !!!: Open with bin/fgviz /path/to/mzfg\nmz_fg_version: 1\n"@
                    + header_lines(header_views(header_extra@).take(k as int)),
            decreases header_extra@.len() - k,
        {
            let pair = header_extra[k];
            builder.append(pair.0);
            builder.append(": ");
            builder.append(pair.1);
            builder.append("\n");
            k = k + 1;
            proof {
                reveal_strlit(": ");
                reveal_strlit("\n");
                assert(header_views(header_extra@).take(k as int).drop_last() =~= header_views(
                    header_extra@,
                ).take(k as int - 1));
                assert(builder@ =~= "!!! COMMENT !!!: Open with bin/fgviz /path/to/mzfg\nmz_fg_version: 1\n"@
                    + header_lines(header_views(header_extra@).take(k as int)));
            }
        }
        proof {
            assert(header_views(header_extra@).take(header_extra@.len() as int) =~= header_views(
                header_extra@,
            ));
        }
        builder.append("\n");
        proof {
            reveal_strlit("\n");
        }
        let ghost pre_stacks = builder@;
        let mut si: usize = 0;
        while si < self.stacks.len()
            invariant
                si <= self.stacks@.len(),
                self@.wf(),
                self@.stacks.len() == self.stacks@.len(),
                builder@ == pre_stacks + stack_lines_upto(self@, si as int),
            decreases self.stacks@.len() - si,
        {
            let entry = &self.stacks[si];
            proof {
                assert(self@.stacks[si as int] == (entry.0@, entry.1));
            }
            let ghost line_start = builder@;
            let addrs = &entry.0.addrs;
            let mut ai: usize = 0;
            while ai < addrs.len()
                invariant
                    ai <= addrs@.len(),
                    addrs == &entry.0.addrs,
                    builder@ == line_start + addrs_part(addrs@.take(ai as int)),
                decreases addrs@.len() - ai,
            {
                push_hex_addr(addrs[ai], &mut builder);
                builder.append(";");
                ai = ai + 1;
                proof {
                    reveal_strlit(";");
                    assert(addrs@.take(ai as int).drop_last() =~= addrs@.take(ai as int - 1));
                    assert(builder@ =~= line_start + addrs_part(addrs@.take(ai as int)));
                }
            }
            proof {
                assert(addrs@.take(addrs@.len() as int) =~= addrs@);
            }
            builder.append(" ");
            builder.append(entry.0.weight.as_str());
            match &entry.1 {
                Some(anno_idx) => {
                    proof {
                        assert(self@.stacks[si as int].1 == Some(*anno_idx));
                        assert((*anno_idx as int) < self@.annotations.len());
                        assert(self@.annotations.len() == self.annotations@.len());
                        assert(self@.annotations[*anno_idx as int] == self.annotations@[*anno_idx
                            as int]@);
                    }
                    builder.append(" ");
                    builder.append(self.annotations[*anno_idx].as_str());
                },
                None => {},
            }
            builder.append("\n");
            si = si + 1;
            proof {
                reveal_strlit(" ");
                reveal_strlit("\n");
                assert(anno_text(self@, si as int - 1) == (match entry.1 {
                    Some(kk) => Some(self@.annotations[kk as int]),
                    None => None::<Seq<char>>,
                }));
                assert(builder@ =~= pre_stacks + stack_lines_upto(self@, si as int));
            }
        }
        proof {
            assert(builder@ == mzfg_of(self@, header_views(header_extra@)));
        }
        if symbolicate {
            let symbols = resolve_all(self);
            builder.append("\n");
            proof {
                reveal_strlit("\n");
            }
            push_symbol_lines(&symbols, &mut builder);
            state.symbolicated = true;
            proof {
                assert(syms_ok(self@, syms_view(symbols@)));
            }
        }
        builder
    }
}

/// Given some stack traces, generate a map of addresses to their
/// corresponding symbols, and mark `state`.
///
/// Each address can correspond to more than one symbol because of
/// inlining, outermost frame first. The map's keys are exactly the
/// distinct addresses of the profile; which names each maps to depends on
/// the images loaded in this process.
pub fn symbolicate(profile: &StackProfile, state: &mut SymbolicationState) -> (r: BTreeMap<
    usize,
    Vec<String>,
>)
    ensures
        final(state).is_symbolicated(),
        forall|a: usize| #[trigger] r@.dom().contains(a) <==> addr_in_profile(profile@, a),
{
    state.symbolicated = true;
    let pairs = resolve_all(profile);
    let mut m: BTreeMap<usize, Vec<String>> = BTreeMap::new();
    let mut t: usize = 0;
    while t < pairs.len()
        invariant
            t <= pairs@.len(),
            syms_ok(profile@, syms_view(pairs@)),
            forall|a: usize| #[trigger] m@.dom().contains(a) ==> exists|t2: int|
                0 <= t2 < t && pairs@[t2].0 == a,
            forall|t2: int| 0 <= t2 < t ==> m@.dom().contains(#[trigger] pairs@[t2].0),
        decreases pairs@.len() - t,
    {
        let (addr, names) = &pairs[t];
        let ghost m0 = m@;
        m.insert(*addr, names.clone());
        t = t + 1;
        proof {
            broadcast use vstd::std_specs::btree::axiom_key_obeys_cmp_spec_meaning;
            assert(m@ == m0.insert(pairs@[t as int - 1].0, m@[pairs@[t as int - 1].0]));
            assert forall|a: usize| #[trigger] m@.dom().contains(a) implies exists|t2: int|
                0 <= t2 < t && pairs@[t2].0 == a by {
                if m0.dom().contains(a) {
                    let t2 = choose|t2: int| 0 <= t2 < t - 1 && pairs@[t2].0 == a;
                    assert(0 <= t2 < t && pairs@[t2].0 == a);
                } else {
                    assert(pairs@[t as int - 1].0 == a);
                }
            }
        }
    }
    proof {
        assert forall|a: usize| #[trigger] m@.dom().contains(a) implies addr_in_profile(
            profile@,
            a,
        ) by {
            let t2 = choose|t2: int| 0 <= t2 < pairs@.len() && pairs@[t2].0 == a;
            assert(syms_view(pairs@)[t2].0 == a);
            assert(addr_in_profile(profile@, syms_view(pairs@)[t2].0));
        }
        assert forall|a: usize| addr_in_profile(profile@, a) implies #[trigger] m@
            .dom()
            .contains(a) by {
            let (i, j) = choose|i: int, j: int|
                0 <= i < profile@.stacks.len() && 0 <= j < profile@.stacks[i].0.addrs.len()
                    && profile@.stacks[i].0.addrs[j] == a;
            assert(syms_keys(syms_view(pairs@)).contains(profile@.stacks[i].0.addrs[j]));
            let t2 = choose|t2: int|
                0 <= t2 < syms_keys(syms_view(pairs@)).len() && syms_keys(syms_view(pairs@))[t2]
                    == a;
            assert(pairs@[t2].0 == a);
        }
    }
    m
}

} // verus!
