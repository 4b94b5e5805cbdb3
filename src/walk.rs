use crate::batch::{
    fits_at, is_trace, lemma_offset_prefix, offset_after, record_fits, span, wrap_add, ADDRESS_SPACE,
};
use crate::config::CsArch;
use crate::handle::Handle;
use crate::insn::Insn;
use vstd::prelude::*;

verus! {

/// The state of a walk as contracts see it: `code_len` bytes of code at
/// address `base`, decoded by an engine for `arch` with detail tracking
/// `detail`; the cursor stands `off` bytes in, and `done` says that the
/// walk is over.
pub struct WalkView {
    pub base: u64,
    pub code_len: int,
    pub arch: CsArch,
    pub detail: bool,
    pub off: int,
    pub done: bool,
}

/// A walk at the start of the code.
pub open spec fn walk_start(base: u64, code_len: int, arch: CsArch, detail: bool) -> WalkView {
    WalkView { base, code_len, arch, detail, off: 0, done: false }
}

/// What a walk in state `s` does with the engine's answer `r`: the new
/// state, and whether the record is handed to the visitor. A record is
/// taken only where it fits at the cursor; the cursor then moves past the
/// bytes it stands for.
/// Anything else (the engine gave up, or answered with a record that does
/// not fit) ends the walk.
pub open spec fn walk_step(s: WalkView, r: Option<Insn>) -> (WalkView, bool) {
    if s.done {
        (s, false)
    } else {
        match r {
            Some(x) => if record_fits(x, s.base, s.off, s.code_len, s.arch, s.detail) {
                (WalkView { off: s.off + span(x), ..s }, true)
            } else {
                (WalkView { done: true, ..s }, false)
            },
            None => (WalkView { done: true, ..s }, false),
        }
    }
}

/// A walk in state `s` that the engine answers with `rs[i]`, `rs[i + 1]`,
/// and so on: the state it ends in, and the records it visits.
pub open spec fn walk_from(s: WalkView, rs: Seq<Insn>, i: int) -> (WalkView, Seq<Insn>)
    decreases rs.len() - i,
{
    if i < 0 || i >= rs.len() {
        (s, Seq::empty())
    } else {
        let (s1, visit) = walk_step(s, Some(rs[i]));
        let (s2, vs) = walk_from(s1, rs, i + 1);
        (s2, if visit { seq![rs[i]] + vs } else { vs })
    }
}

/// The cursor of a walk over code, one instruction at a time, with a single
/// record slot that the engine fills at each step.
pub struct Walker {
    base: u64,
    code_len: usize,
    arch: CsArch,
    detail: bool,
    off: usize,
    done: bool,
}

impl View for Walker {
    type V = WalkView;

    closed spec fn view(&self) -> WalkView {
        WalkView {
            base: self.base,
            code_len: self.code_len as int,
            arch: self.arch,
            detail: self.detail,
            off: self.off as int,
            done: self.done,
        }
    }
}

impl Walker {
    #[verifier::type_invariant]
    closed spec fn inv(self) -> bool {
        self.off <= self.code_len
    }

    /// A walk over `code_len` bytes of code at address `base`, decoded by
    /// the engine of `handle`.
    pub fn new(handle: &Handle, code_len: usize, base: u64) -> (r: Walker)
        ensures
            r@ == walk_start(base, code_len as int, handle.spec_arch(), handle.spec_detail()),
    {
        Walker { base, code_len, arch: handle.arch(), detail: handle.detail_enabled(), off: 0, done: false }
    }

    /// Where the engine is to decode next: the offset into the code and
    /// the address there (wrapping past the end of the address space, as
    /// the engine's addresses do). `None` once the walk is over or the code
    /// is used up.
    pub fn next_request(&self) -> (r: Option<(usize, u64)>)
        ensures
            r is Some <==> (!self@.done && self@.off < self@.code_len),
            r matches Some((o, a)) ==> o == self@.off && a == wrap_add(self@.base, self@.off),
    {
        if self.done || self.off >= self.code_len {
            None
        } else {
            let a = (self.base as u128 + self.off as u128) % ADDRESS_SPACE;
            Some((self.off, a as u64))
        }
    }

    /// Takes the engine's answer for the last request: the record it
    /// decoded, or `None` where it gave up. Returns whether the record is
    /// to be handed to the visitor.
    pub fn advance(&mut self, decoded: Option<&Insn>) -> (visit: bool)
        ensures
            (final(self)@, visit) == walk_step(
                old(self)@,
                match decoded {
                    Some(x) => Some(*x),
                    None => None,
                },
            ),
    {
        proof {
            use_type_invariant(&*self);
        }
        if self.done {
            return false;
        }
        match decoded {
            Some(x) => {
                if fits_at(x, self.base, self.off, self.code_len, self.arch, self.detail) {
                    let sp: usize = if x.id == 0 && x.size == 0 {
                        1
                    } else {
                        x.size as usize
                    };
                    self.off = self.off + sp;
                    true
                } else {
                    self.done = true;
                    false
                }
            },
            None => {
                self.done = true;
                false
            },
        }
    }
}

/// The state of a walk that has taken the first `i` records of `rs`.
pub open spec fn walk_after(base: u64, code_len: int, arch: CsArch, detail: bool, rs: Seq<Insn>, i: int) -> WalkView {
    WalkView { base, code_len, arch, detail, off: offset_after(rs, i), done: false }
}

/// A walk and a batch over the same code agree: where the engine answers
/// a walk with the records of a batch, one after the other, the walk asks
/// for each at the address where the batch has it, takes it, and visits
/// exactly the batch's records, in order.
pub proof fn lemma_walk_matches_batch(rs: Seq<Insn>, base: u64, code_len: int, arch: CsArch, detail: bool)
    requires
        is_trace(rs, base, code_len, arch, detail),
    ensures
        forall|i: int|
            0 <= i < rs.len() ==> {
                &&& (#[trigger] rs[i]).address == wrap_add(base, walk_after(base, code_len, arch, detail, rs, i).off)
                &&& walk_step(walk_after(base, code_len, arch, detail, rs, i), Some(rs[i])) == (
                walk_after(base, code_len, arch, detail, rs, i + 1),
                true,
            )
            },
        walk_from(walk_start(base, code_len, arch, detail), rs, 0).1 == rs,
{
    assert(walk_start(base, code_len, arch, detail) == walk_after(base, code_len, arch, detail, rs, 0));
    lemma_walk_suffix(rs, base, code_len, arch, detail, 0);
    assert(rs.subrange(0, rs.len() as int) =~= rs);
}

proof fn lemma_walk_suffix(rs: Seq<Insn>, base: u64, code_len: int, arch: CsArch, detail: bool, i: int)
    requires
        is_trace(rs, base, code_len, arch, detail),
        0 <= i <= rs.len(),
    ensures
        walk_from(walk_after(base, code_len, arch, detail, rs, i), rs, i).1 == rs.subrange(i, rs.len() as int),
    decreases rs.len() - i,
{
    if i < rs.len() {
        lemma_walk_suffix(rs, base, code_len, arch, detail, i + 1);
        assert(record_fits(rs[i], base, offset_after(rs, i), code_len, arch, detail));
        assert(seq![rs[i]] + rs.subrange(i + 1, rs.len() as int) =~= rs.subrange(i, rs.len() as int));
    } else {
        assert(rs.subrange(i, rs.len() as int) =~= Seq::<Insn>::empty());
    }
}

/// Whatever the engine answers, the records that a walk visits follow
/// each other from the start of the code, as a batch's do.
pub proof fn lemma_walk_visits_trace(rs: Seq<Insn>, base: u64, code_len: int, arch: CsArch, detail: bool)
    ensures
        is_trace(walk_from(walk_start(base, code_len, arch, detail), rs, 0).1, base, code_len, arch, detail),
{
    let s = walk_start(base, code_len, arch, detail);
    lemma_walk_visits_trace_from(rs, 0, s, Seq::empty());
    assert(Seq::<Insn>::empty() + walk_from(s, rs, 0).1 =~= walk_from(s, rs, 0).1);
}

/// A walk that has visited the run `vs`, and whose cursor stands where
/// that run ends, goes on to visit records that make the run longer.
proof fn lemma_walk_visits_trace_from(rs: Seq<Insn>, i: int, s: WalkView, vs: Seq<Insn>)
    requires
        is_trace(vs, s.base, s.code_len, s.arch, s.detail),
        s.off == offset_after(vs, vs.len() as int),
    ensures
        is_trace(vs + walk_from(s, rs, i).1, s.base, s.code_len, s.arch, s.detail),
    decreases rs.len() - i,
{
    if i < 0 || i >= rs.len() {
        assert(vs + walk_from(s, rs, i).1 =~= vs);
    } else {
        let (s1, visit) = walk_step(s, Some(rs[i]));
        if visit {
            let vs1 = vs.push(rs[i]);
            assert(vs1.take(vs.len() as int) =~= vs);
            assert forall|k: int| 0 <= k <= vs.len() implies offset_after(vs1, k) == offset_after(vs, k) by {
                lemma_offset_prefix(vs1, vs.len() as int, k);
            }
            assert(offset_after(vs1, vs1.len() as int) == s1.off);
            assert forall|k: int| 0 <= k < vs1.len() implies record_fits(
                #[trigger] vs1[k],
                s.base,
                offset_after(vs1, k),
                s.code_len,
                s.arch,
                s.detail,
            ) by {
                if k < vs.len() {
                    assert(vs1[k] == vs[k]);
                }
            }
            lemma_walk_visits_trace_from(rs, i + 1, s1, vs1);
            assert(vs1 + walk_from(s1, rs, i + 1).1 =~= vs + walk_from(s, rs, i).1);
        } else {
            lemma_walk_visits_trace_from(rs, i + 1, s1, vs);
        }
    }
}

} // verus!
