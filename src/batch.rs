use crate::config::CsArch;
use crate::error::DisasmError;
use crate::handle::Handle;
use crate::insn::{detail_view, Insn, INSN_BYTES_CAP};
use vstd::arithmetic::div_mod::{lemma_add_mod_noop, lemma_small_mod};
use vstd::prelude::*;

verus! {

/// The size of the address space: addresses are taken modulo this.
pub const ADDRESS_SPACE: u128 = 0x1_0000_0000_0000_0000;

/// `a + b` in the address space, wrapping past its end as the engine's
/// addresses do.
pub open spec fn wrap_add(a: u64, b: int) -> u64 {
    ((a as int + b) % (ADDRESS_SPACE as int)) as u64
}

/// How many bytes of code a record stands for: its size, except that a
/// record of skipped data (id 0) of size 0 stands for the one byte skipped.
pub open spec fn span(r: Insn) -> int {
    if r.id == 0 && r.size == 0 {
        1
    } else {
        r.size as int
    }
}

/// Where the record after the first `i` of `rs` starts, counted in bytes
/// from the start of the code: the spans of those records added up.
pub open spec fn offset_after(rs: Seq<Insn>, i: int) -> int
    decreases i,
{
    if i <= 0 || i > rs.len() {
        0
    } else {
        offset_after(rs, i - 1) + span(rs[i - 1])
    }
}

/// The sizes of the first `i` records of `rs` added up.
pub open spec fn size_sum(rs: Seq<Insn>, i: int) -> int
    decreases i,
{
    if i <= 0 || i > rs.len() {
        0
    } else {
        size_sum(rs, i - 1) + rs[i - 1].size
    }
}

/// How the engine's record `r` stands `off` bytes into `code_len` bytes of
/// code that start at address `base`, when an engine for `arch` with
/// detail tracking `detail` decodes them: it starts at that address
/// (wrapping past the end of the address space), ends within the code, is
/// an instruction of 1 to 16 bytes unless it is skipped data (id 0), and
/// carries a detail block of that architecture exactly where tracking is
/// on (skipped data aside).
pub open spec fn record_fits(r: Insn, base: u64, off: int, code_len: int, arch: CsArch, detail: bool) -> bool {
    &&& r.address == wrap_add(base, off)
    &&& off + span(r) <= code_len
    &&& r.id != 0 ==> 1 <= r.size <= INSN_BYTES_CAP
    &&& r.id != 0 ==> (r.detail is Some <==> detail)
    &&& r.detail matches Some(d) ==> d.spec_arch() == arch
}

/// `rs` is what a correct engine returns for code: records that follow
/// each other without gap or overlap from the start of the code.
pub open spec fn is_trace(rs: Seq<Insn>, base: u64, code_len: int, arch: CsArch, detail: bool) -> bool {
    forall|i: int|
        0 <= i < rs.len() ==> record_fits(
            #[trigger] rs[i],
            base,
            offset_after(rs, i),
            code_len,
            arch,
            detail,
        )
}

/// How many records a batch holds: all that the engine returned, or at
/// most `count` where `count` is not zero.
pub open spec fn batch_limit(n: int, count: int) -> int {
    if count == 0 || n <= count {
        n
    } else {
        count
    }
}

/// The offset after the first `i` records depends on those records alone.
pub(crate) proof fn lemma_offset_prefix(rs: Seq<Insn>, k: int, i: int)
    requires
        0 <= i <= k <= rs.len(),
    ensures
        offset_after(rs.take(k), i) == offset_after(rs, i),
    decreases i,
{
    if i > 0 {
        lemma_offset_prefix(rs, k, i - 1);
    }
}

/// The sizes of records never add up to more than the bytes they stand for.
proof fn lemma_size_sum_le_offset(rs: Seq<Insn>, i: int)
    requires
        0 <= i <= rs.len(),
    ensures
        size_sum(rs, i) <= offset_after(rs, i),
    decreases i,
{
    if i > 0 {
        lemma_size_sum_le_offset(rs, i - 1);
    }
}

/// Adding to a wrapped address is adding to the unwrapped one.
proof fn lemma_wrap_add_twice(a: u64, o: int, s: int)
    requires
        0 <= o,
        0 <= s < ADDRESS_SPACE,
    ensures
        wrap_add(wrap_add(a, o), s) == wrap_add(a, o + s),
{
    let m = ADDRESS_SPACE as int;
    lemma_add_mod_noop(a + o, s, m);
    lemma_small_mod(s as nat, m as nat);
    assert(((a + o) % m) % m == (a + o) % m) by {
        vstd::arithmetic::div_mod::lemma_mod_twice(a + o, m);
    }
}

/// The records that a correct engine returns stay within the code: their
/// sizes add up to at most its length, each real instruction takes 1 to
/// 16 bytes, and each record starts where the one before it ends, so the
/// addresses strictly increase wherever the code does not run past the
/// end of the address space.
pub proof fn lemma_batch_within_code(rs: Seq<Insn>, base: u64, code_len: int, arch: CsArch, detail: bool)
    requires
        0 <= code_len,
        is_trace(rs, base, code_len, arch, detail),
    ensures
        size_sum(rs, rs.len() as int) <= code_len,
        forall|i: int| 0 <= i < rs.len() && (#[trigger] rs[i]).id != 0 ==> 1 <= rs[i].size <= 16,
        forall|i: int|
            0 <= i < rs.len() - 1 ==> (#[trigger] rs[i + 1]).address == wrap_add(rs[i].address, span(rs[i])),
        base + code_len <= ADDRESS_SPACE ==> forall|i: int|
            0 <= i < rs.len() - 1 ==> rs[i].address < (#[trigger] rs[i + 1]).address,
{
    lemma_size_sum_le_offset(rs, rs.len() as int);
    if rs.len() > 0 {
        assert(record_fits(rs[rs.len() - 1], base, offset_after(rs, rs.len() - 1), code_len, arch, detail));
    }
    assert forall|i: int| 0 <= i < rs.len() && (#[trigger] rs[i]).id != 0 implies 1 <= rs[i].size <= 16 by {
        assert(record_fits(rs[i], base, offset_after(rs, i), code_len, arch, detail));
    }
    assert forall|i: int| 0 <= i < rs.len() - 1 implies (#[trigger] rs[i + 1]).address == wrap_add(
        rs[i].address,
        span(rs[i]),
    ) by {
        assert(record_fits(rs[i], base, offset_after(rs, i), code_len, arch, detail));
        assert(record_fits(rs[i + 1], base, offset_after(rs, i + 1), code_len, arch, detail));
        lemma_offset_nonneg(rs, i);
        lemma_wrap_add_twice(base, offset_after(rs, i), span(rs[i]));
    }
    if base + code_len <= ADDRESS_SPACE {
        assert forall|i: int| 0 <= i < rs.len() - 1 implies rs[i].address < (#[trigger] rs[i
            + 1]).address by {
            assert(record_fits(rs[i], base, offset_after(rs, i), code_len, arch, detail));
            assert(record_fits(rs[i + 1], base, offset_after(rs, i + 1), code_len, arch, detail));
            lemma_offset_nonneg(rs, i);
            let m = ADDRESS_SPACE as int;
            lemma_small_mod((base + offset_after(rs, i)) as nat, m as nat);
            lemma_small_mod((base + offset_after(rs, i + 1)) as nat, m as nat);
        }
    }
}

/// Offsets are never negative.
pub(crate) proof fn lemma_offset_nonneg(rs: Seq<Insn>, i: int)
    ensures
        offset_after(rs, i) >= 0,
    decreases i,
{
    if 0 < i <= rs.len() {
        lemma_offset_nonneg(rs, i - 1);
    }
}

/// Among the records that a correct engine returns, a record of skipped
/// data carries no detail, and every other record carries one exactly
/// where detail tracking was on.
pub proof fn lemma_batch_detail(rs: Seq<Insn>, base: u64, code_len: int, arch: CsArch, detail: bool)
    requires
        is_trace(rs, base, code_len, arch, detail),
    ensures
        forall|i: int|
            0 <= i < rs.len() ==> {
                &&& (#[trigger] rs[i]).id == 0 ==> detail_view(rs[i]) is None
                &&& rs[i].id != 0 ==> (detail_view(rs[i]) is Some <==> detail)
            },
{
    assert forall|i: int| 0 <= i < rs.len() implies {
        &&& (#[trigger] rs[i]).id == 0 ==> detail_view(rs[i]) is None
        &&& rs[i].id != 0 ==> (detail_view(rs[i]) is Some <==> detail)
    } by {
        assert(record_fits(rs[i], base, offset_after(rs, i), code_len, arch, detail));
    }
}

/// Whether record `r` stands `off` bytes into the code as a correct
/// engine's record would.
pub(crate) fn fits_at(r: &Insn, base: u64, off: usize, code_len: usize, arch: CsArch, detail: bool) -> (b: bool)
    requires
        off <= code_len,
    ensures
        b == record_fits(*r, base, off as int, code_len as int, arch, detail),
{
    if r.address as u128 != (base as u128 + off as u128) % ADDRESS_SPACE {
        return false;
    }
    let sp: usize = if r.id == 0 && r.size == 0 {
        1
    } else {
        r.size as usize
    };
    if sp > code_len - off {
        return false;
    }
    if r.id != 0 && (r.size == 0 || r.size as usize > INSN_BYTES_CAP || r.detail.is_some() != detail) {
        return false;
    }
    match &r.detail {
        Some(d) => d.arch() == arch,
        None => true,
    }
}

/// Instructions decoded in one batch, as the engine returned them, with
/// the code they were decoded from and the configuration of the handle.
#[derive(Debug)]
pub struct Instructions {
    insns: Vec<Insn>,
    base: u64,
    code_len: usize,
    arch: CsArch,
    detail: bool,
}

impl Instructions {
    /// The records.
    pub closed spec fn spec_insns(self) -> Seq<Insn> {
        self.insns@
    }

    /// The address of the first byte of the code.
    pub closed spec fn spec_base(self) -> u64 {
        self.base
    }

    /// The number of bytes of code.
    pub closed spec fn spec_code_len(self) -> usize {
        self.code_len
    }

    /// The architecture of the engine that decoded the records.
    pub closed spec fn spec_arch(self) -> CsArch {
        self.arch
    }

    /// Whether detail tracking was on when the records were decoded.
    pub closed spec fn spec_detail(self) -> bool {
        self.detail
    }

    /// The result of a batch decode. `decoded` holds the records that the
    /// engine returned for `code_len` bytes of code at `base`, asked for at
    /// most `count` of them (0: all), and `errno` the status it reported
    /// when it returned none. The batch holds the engine's records, at
    /// most `count` where that is not zero; where the engine returned no
    /// record the decode fails: with the engine's status, or, where the
    /// engine reports no error (empty code), with `NoInstructionsDecoded`.
    pub fn from_parts(
        handle: &Handle,
        code_len: usize,
        base: u64,
        count: usize,
        decoded: Vec<Insn>,
        errno: u32,
    ) -> (r: Result<Instructions, DisasmError>)
        ensures
            r is Ok <==> decoded@.len() > 0,
            r matches Ok(b) ==> {
                &&& b.spec_insns() == decoded@.take(batch_limit(decoded@.len() as int, count as int))
                &&& b.spec_base() == base
                &&& b.spec_code_len() == code_len
                &&& b.spec_arch() == handle.spec_arch()
                &&& b.spec_detail() == handle.spec_detail()
            },
            r matches Err(e) ==> e == DisasmError::spec_from_status(errno),
    {
        if decoded.len() == 0 {
            return Err(DisasmError::from_status(errno));
        }
        let mut insns = decoded;
        if count != 0 && insns.len() > count {
            insns.truncate(count);
        }
        assert(insns@ =~= decoded@.take(batch_limit(decoded@.len() as int, count as int)));
        Ok(Instructions { insns, base, code_len, arch: handle.arch(), detail: handle.detail_enabled() })
    }

    /// The number of records.
    pub fn len(&self) -> (r: usize)
        ensures
            r == self.spec_insns().len(),
    {
        self.insns.len()
    }

    /// The records.
    pub fn as_slice(&self) -> (r: &[Insn])
        ensures
            r@ == self.spec_insns(),
    {
        self.insns.as_slice()
    }

    /// A cursor over the records, from the first.
    pub fn iter(&self) -> (r: InstructionIterator<'_>)
        ensures
            r.spec_insns() == self.spec_insns(),
            r.spec_cur() == 0,
    {
        InstructionIterator { insns: self.insns.as_slice(), cur: 0 }
    }
}

/// A cursor over the records of a batch.
pub struct InstructionIterator<'a> {
    insns: &'a [Insn],
    cur: usize,
}

impl<'a> InstructionIterator<'a> {
    /// The records walked over.
    pub closed spec fn spec_insns(self) -> Seq<Insn> {
        self.insns@
    }

    /// How many records were handed out.
    pub closed spec fn spec_cur(self) -> usize {
        self.cur
    }

    /// The next record, if any is left.
    pub fn next(&mut self) -> (r: Option<&'a Insn>)
        ensures
            final(self).spec_insns() == old(self).spec_insns(),
            old(self).spec_cur() < old(self).spec_insns().len() ==> {
                &&& r matches Some(i) && *i == old(self).spec_insns()[old(self).spec_cur() as int]
                &&& final(self).spec_cur() == old(self).spec_cur() + 1
            },
            old(self).spec_cur() >= old(self).spec_insns().len() ==> {
                &&& r is None
                &&& final(self).spec_cur() == old(self).spec_cur()
            },
    {
        if self.cur < self.insns.len() {
            let i = &self.insns[self.cur];
            self.cur = self.cur + 1;
            Some(i)
        } else {
            None
        }
    }
}

} // verus!
