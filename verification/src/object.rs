//! The binary object loader: decodes a byte buffer into an immutable
//! [`Bytecode`] - a 32-byte source hash, a global-slot count, a string pool,
//! a type table, and the raw instruction stream - and rejects any buffer in
//! which one of the nine sections this engine does not support is non-empty.

use vstd::prelude::*;

verus! {

use crate::errors::LoadError;
use crate::vint::{get_vint, lemma_vint_at_ok, vint_at};
use vstd::utf8::{decode_utf8, valid_utf8};

/// One type-descriptor entry: a pair of string-pool indices.
#[derive(Clone, Copy, Debug, PartialEq, Eq, Structural)]
pub struct Type {
    pub name: usize,
    pub descriptor: usize,
}

/// The mathematical content of a loaded module.
#[verifier::ext_equal]
pub struct ModuleV {
    pub source_hash: Seq<u8>,
    pub global_size: usize,
    pub strings: Seq<Seq<char>>,
    pub types: Seq<Type>,
    pub code: Seq<u8>,
}

/// The string-pool entries from `pos` to the end of the pool section:
/// `(vint length, UTF-8 bytes)` records packed contiguously until the section
/// is exhausted, each decoded to its characters.
pub open spec fn pool_at(bytes: Seq<u8>, pos: int) -> Result<Seq<Seq<char>>, LoadError>
    decreases bytes.len() - pos,
    via pool_at_dec
{
    if pos >= bytes.len() {
        Ok(Seq::empty())
    } else {
        match vint_at(bytes, pos, 0) {
            Err(e) => Err(e),
            Ok((slen, p2)) => if p2 + slen > bytes.len() {
                Err(LoadError::TruncatedString)
            } else if !valid_utf8(bytes.subrange(p2, p2 + slen)) {
                Err(LoadError::InvalidUtf8)
            } else {
                match pool_at(bytes, p2 + slen) {
                    Err(e) => Err(e),
                    Ok(rest) => Ok(seq![decode_utf8(bytes.subrange(p2, p2 + slen))] + rest),
                }
            },
        }
    }
}

#[via_fn]
proof fn pool_at_dec(bytes: Seq<u8>, pos: int) {
    lemma_vint_at_ok(bytes, pos, 0);
}

/// The byte encoding of a string pool built from `entries` in order: each
/// entry its vint-encoded length followed by its bytes, packed contiguously.
pub open spec fn pool_bytes(entries: Seq<Seq<u8>>) -> Seq<u8>
    decreases entries.len(),
{
    if entries.len() == 0 {
        Seq::empty()
    } else {
        crate::vint::vint_bytes(entries[0].len()) + entries[0] + pool_bytes(entries.drop_first())
    }
}

proof fn lemma_pool_at_encode(bytes: Seq<u8>, pos: int, entries: Seq<Seq<u8>>)
    requires
        0 <= pos <= bytes.len(),
        forall|k: int|
            0 <= k < entries.len() ==> valid_utf8(#[trigger] entries[k]) && entries[k].len()
                <= usize::MAX,
        bytes.subrange(pos, bytes.len() as int) == pool_bytes(entries),
    ensures
        pool_at(bytes, pos) == Ok::<Seq<Seq<char>>, LoadError>(
            entries.map_values(|b: Seq<u8>| decode_utf8(b)),
        ),
    decreases entries.len(),
{
    let suffix = bytes.subrange(pos, bytes.len() as int);
    if entries.len() == 0 {
        assert(pos == bytes.len());
        assert(entries.map_values(|b: Seq<u8>| decode_utf8(b)) =~= Seq::<Seq<char>>::empty());
    } else {
        let e0 = entries[0];
        let vb = crate::vint::vint_bytes(e0.len());
        let rest = pool_bytes(entries.drop_first());
        assert(suffix == vb + e0 + rest);
        assert(suffix.len() == vb.len() + e0.len() + rest.len());
        assert forall|j: int| 0 <= j < vb.len() implies bytes.subrange(
            pos,
            pos + vb.len() as int,
        )[j] == vb[j] by {
            assert(suffix[j] == (vb + e0 + rest)[j]);
        }
        assert(bytes.subrange(pos, pos + vb.len() as int) =~= vb);
        crate::vint::lemma_vint_roundtrip(bytes, pos, e0.len());
        let p2 = pos + vb.len() as int;
        assert forall|j: int| 0 <= j < e0.len() implies bytes.subrange(
            p2,
            p2 + e0.len() as int,
        )[j] == e0[j] by {
            assert(suffix[vb.len() + j] == (vb + e0 + rest)[vb.len() + j]);
        }
        assert(bytes.subrange(p2, p2 + e0.len() as int) =~= e0);
        assert forall|j: int| 0 <= j < rest.len() implies bytes.subrange(
            p2 + e0.len(),
            bytes.len() as int,
        )[j] == rest[j] by {
            assert(suffix[vb.len() + e0.len() + j] == (vb + e0 + rest)[vb.len() + e0.len() + j]);
        }
        assert(bytes.subrange(p2 + e0.len(), bytes.len() as int) =~= rest);
        lemma_pool_at_encode(bytes, p2 + e0.len(), entries.drop_first());
        assert(pool_at(bytes, pos) == Ok::<Seq<Seq<char>>, LoadError>(
            seq![decode_utf8(e0)] + entries.drop_first().map_values(
                |b: Seq<u8>| decode_utf8(b),
            ),
        ));
        assert(seq![decode_utf8(e0)] + entries.drop_first().map_values(|b: Seq<u8>| decode_utf8(b))
            =~= entries.map_values(|b: Seq<u8>| decode_utf8(b)));
    }
}

/// String-pool round trip: a pool built from an ordered list of UTF-8 byte
/// strings decodes back to exactly that list, entry for entry and in order.
pub proof fn lemma_pool_roundtrip(entries: Seq<Seq<u8>>)
    requires
        forall|k: int|
            0 <= k < entries.len() ==> valid_utf8(#[trigger] entries[k]) && entries[k].len()
                <= usize::MAX,
    ensures
        pool_at(pool_bytes(entries), 0) == Ok::<Seq<Seq<char>>, LoadError>(
            entries.map_values(|b: Seq<u8>| decode_utf8(b)),
        ),
{
    let bytes = pool_bytes(entries);
    assert(bytes.subrange(0, bytes.len() as int) =~= bytes);
    lemma_pool_at_encode(bytes, 0, entries);
}

/// `remaining` type-table entries read from `pos`, each a pair of vints, and
/// the position just past them.
pub open spec fn type_pairs_at(bytes: Seq<u8>, pos: int, remaining: nat) -> Result<
    (Seq<Type>, int),
    LoadError,
>
    decreases remaining,
{
    if remaining == 0 {
        Ok((Seq::empty(), pos))
    } else {
        match vint_at(bytes, pos, 0) {
            Err(e) => Err(e),
            Ok((name, p2)) => match vint_at(bytes, p2, 0) {
                Err(e) => Err(e),
                Ok((descriptor, p3)) => match type_pairs_at(bytes, p3, (remaining - 1) as nat) {
                    Err(e) => Err(e),
                    Ok((rest, end)) => Ok(
                        (
                            seq![Type { name: name as usize, descriptor: descriptor as usize }]
                                + rest,
                            end,
                        ),
                    ),
                },
            },
        }
    }
}

/// The position just past the nine vint-length-prefixed sections starting at
/// `pos`, with `done` of them already consumed. Each must be present with
/// length zero: this engine is a subset loader.
pub open spec fn sections_at(bytes: Seq<u8>, pos: int, done: nat) -> Result<int, LoadError>
    decreases 9 - done,
{
    if done >= 9 {
        Ok(pos)
    } else {
        match vint_at(bytes, pos, 0) {
            Err(e) => Err(e),
            Ok((v, p2)) => if v != 0 {
                Err(LoadError::UnsupportedSection(done as usize))
            } else {
                sections_at(bytes, p2, done + 1)
            },
        }
    }
}

/// What loading a byte buffer yields: the module's content, or the exact
/// format error. Fields are consumed strictly in order: 32 hash bytes, the
/// global-slot count, the length-prefixed string pool, the type-entry count
/// followed by one entry fewer than it declares (the count includes a
/// predefined entry that the stream does not repeat), the nine empty
/// sections, then the instruction stream as all remaining bytes.
pub open spec fn spec_load(bytes: Seq<u8>) -> Result<ModuleV, LoadError> {
    if bytes.len() < 32 {
        Err(LoadError::TruncatedHash)
    } else {
        match vint_at(bytes, 32, 0) {
            Err(e) => Err(e),
            Ok((gs, i1)) => match vint_at(bytes, i1, 0) {
                Err(e) => Err(e),
                Ok((psize, i2)) => if i2 + psize > bytes.len() {
                    Err(LoadError::TruncatedPool)
                } else {
                    match pool_at(bytes.subrange(i2, i2 + psize), 0) {
                        Err(e) => Err(e),
                        Ok(strings) => match vint_at(bytes, i2 + psize, 0) {
                            Err(e) => Err(e),
                            Ok((tcount, i3)) => match type_pairs_at(
                                bytes,
                                i3,
                                if tcount == 0 {
                                    0
                                } else {
                                    (tcount - 1) as nat
                                },
                            ) {
                                Err(e) => Err(e),
                                Ok((types, i4)) => match sections_at(bytes, i4, 0) {
                                    Err(e) => Err(e),
                                    Ok(i5) => Ok(
                                        ModuleV {
                                            source_hash: bytes.subrange(0, 32),
                                            global_size: gs as usize,
                                            strings: strings,
                                            types: types,
                                            code: bytes.subrange(i5, bytes.len() as int),
                                        },
                                    ),
                                },
                            },
                        },
                    }
                },
            },
        }
    }
}

/// A declared string-pool length larger than the remaining bytes of the
/// buffer is rejected at load time.
pub proof fn lemma_load_rejects_oversized_pool(
    bytes: Seq<u8>,
    gs: nat,
    i1: int,
    psize: nat,
    i2: int,
)
    requires
        bytes.len() >= 32,
        vint_at(bytes, 32, 0) == Ok::<(nat, int), LoadError>((gs, i1)),
        vint_at(bytes, i1, 0) == Ok::<(nat, int), LoadError>((psize, i2)),
        i2 + psize > bytes.len(),
    ensures
        spec_load(bytes) == Err::<ModuleV, LoadError>(LoadError::TruncatedPool),
{
}

/// A section that this engine requires to be empty, but whose declared
/// length is nonzero, is rejected at load time, naming the section.
pub proof fn lemma_sections_reject_nonzero(bytes: Seq<u8>, pos: int, done: nat, v: nat, p2: int)
    requires
        done < 9,
        vint_at(bytes, pos, 0) == Ok::<(nat, int), LoadError>((v, p2)),
        v != 0,
    ensures
        sections_at(bytes, pos, done) == Err::<int, LoadError>(
            LoadError::UnsupportedSection(done as usize),
        ),
{
}

/// A loaded module: immutable once constructed.
pub struct Bytecode {
    pub source_hash: Vec<u8>,
    pub global_size: usize,
    pub strtable: Vec<String>,
    pub types: Vec<Type>,
    pub code: Vec<u8>,
}

impl View for Bytecode {
    type V = ModuleV;

    open spec fn view(&self) -> ModuleV {
        ModuleV {
            source_hash: self.source_hash@,
            global_size: self.global_size,
            strings: self.strtable.deep_view(),
            types: self.types@,
            code: self.code@,
        }
    }
}

/// Relies on String::from_utf8: it succeeds exactly on valid UTF-8 input and
/// returns the string those bytes encode.
#[verifier::external_body]
fn utf8_to_string(bytes: Vec<u8>) -> (r: Result<String, LoadError>)
    ensures
        match r {
            Ok(s) => valid_utf8(bytes@) && s@ == decode_utf8(bytes@),
            Err(e) => !valid_utf8(bytes@) && e == LoadError::InvalidUtf8,
        },
{
    match String::from_utf8(bytes) {
        Ok(s) => Ok(s),
        Err(_) => Err(LoadError::InvalidUtf8),
    }
}

impl Bytecode {
    /// Parses a string-pool section into its entries, in order.
    pub fn get_strtable(bytecode: &[u8]) -> (r: Result<Vec<String>, LoadError>)
        ensures
            match pool_at(bytecode@, 0) {
                Ok(ss) => r matches Ok(v) && v.deep_view() == ss,
                Err(e) => r == Err::<Vec<String>, LoadError>(e),
            },
    {
        let mut r: Vec<String> = Vec::new();
        let mut i: usize = 0;
        loop
            invariant
                i <= bytecode@.len(),
                match pool_at(bytecode@, i as int) {
                    Ok(rest) => pool_at(bytecode@, 0) == Ok::<Seq<Seq<char>>, LoadError>(
                        r.deep_view() + rest,
                    ),
                    Err(e) => pool_at(bytecode@, 0) == Err::<Seq<Seq<char>>, LoadError>(e),
                },
            decreases bytecode@.len() - i,
        {
            if i >= bytecode.len() {
                proof {
                    assert(r.deep_view() + Seq::<Seq<char>>::empty() =~= r.deep_view());
                }
                return Ok(r);
            }
            let ghost i0 = i as int;
            let strlen = match get_vint(bytecode, &mut i) {
                Ok(v) => v,
                Err(e) => {
                    return Err(e);
                },
            };
            proof {
                lemma_vint_at_ok(bytecode@, i0, 0);
            }
            if strlen > bytecode.len() - i {
                return Err(LoadError::TruncatedString);
            }
            let entry = vstd::slice::slice_to_vec(
                vstd::slice::slice_subrange(bytecode, i, i + strlen),
            );
            let s = match utf8_to_string(entry) {
                Ok(s) => s,
                Err(e) => {
                    return Err(e);
                },
            };
            let ghost r_old = r.deep_view();
            let ghost s_chars = s@;
            r.push(s);
            i = i + strlen;
            proof {
                assert(r.deep_view() =~= r_old.push(s_chars));
                match pool_at(bytecode@, i as int) {
                    Ok(rest) => {
                        assert(r_old + (seq![s_chars] + rest) =~= r.deep_view() + rest);
                    },
                    Err(_) => {},
                }
            }
        }
    }

    /// Loads a module from a byte buffer, failing with the exact format error
    /// that [`spec_load`] assigns to the buffer.
    #[verifier::loop_isolation(false)]
    pub fn new(bytecode: &Vec<u8>) -> (r: Result<Bytecode, LoadError>)
        ensures
            match spec_load(bytecode@) {
                Ok(m) => r matches Ok(bc) && bc@ == m,
                Err(e) => r == Err::<Bytecode, LoadError>(e),
            },
    {
        let n = bytecode.len();
        if n < 32 {
            return Err(LoadError::TruncatedHash);
        }
        let mut source_hash: Vec<u8> = Vec::new();
        let mut k: usize = 0;
        while k < 32
            invariant
                32 <= bytecode@.len(),
                k <= 32,
                source_hash@ =~= bytecode@.subrange(0, k as int),
            decreases 32 - k,
        {
            source_hash.push(bytecode[k]);
            k = k + 1;
        }
        let mut i: usize = 32;
        let global_size = match get_vint(bytecode.as_slice(), &mut i) {
            Ok(v) => v,
            Err(e) => {
                return Err(e);
            },
        };
        proof {
            lemma_vint_at_ok(bytecode@, 32, 0);
        }
        let ghost i1 = i as int;
        let psize = match get_vint(bytecode.as_slice(), &mut i) {
            Ok(v) => v,
            Err(e) => {
                return Err(e);
            },
        };
        proof {
            lemma_vint_at_ok(bytecode@, i1, 0);
        }
        if psize > n - i {
            return Err(LoadError::TruncatedPool);
        }
        let pool_slice = vstd::slice::slice_subrange(bytecode.as_slice(), i, i + psize);
        let strtable = match Bytecode::get_strtable(pool_slice) {
            Ok(v) => v,
            Err(e) => {
                return Err(e);
            },
        };
        i = i + psize;
        let ghost i2p = i as int;
        let tcount = match get_vint(bytecode.as_slice(), &mut i) {
            Ok(v) => v,
            Err(e) => {
                return Err(e);
            },
        };
        proof {
            lemma_vint_at_ok(bytecode@, i2p, 0);
        }
        let ghost t_start = i as int;
        let ghost remaining0: nat = if tcount == 0 {
            0
        } else {
            (tcount - 1) as nat
        };
        let mut types: Vec<Type> = Vec::new();
        let mut rem: usize = if tcount == 0 {
            0
        } else {
            tcount - 1
        };
        while rem > 0
            invariant
                i <= n,
                match type_pairs_at(bytecode@, i as int, rem as nat) {
                    Ok(tr) => type_pairs_at(bytecode@, t_start, remaining0) == Ok::<
                        (Seq<Type>, int),
                        LoadError,
                    >((types@ + tr.0, tr.1)),
                    Err(e) => type_pairs_at(bytecode@, t_start, remaining0) == Err::<
                        (Seq<Type>, int),
                        LoadError,
                    >(e),
                },
            decreases rem,
        {
            let ghost ia = i as int;
            let name = match get_vint(bytecode.as_slice(), &mut i) {
                Ok(v) => v,
                Err(e) => {
                    return Err(e);
                },
            };
            proof {
                lemma_vint_at_ok(bytecode@, ia, 0);
            }
            let ghost ib = i as int;
            let descriptor = match get_vint(bytecode.as_slice(), &mut i) {
                Ok(v) => v,
                Err(e) => {
                    return Err(e);
                },
            };
            proof {
                lemma_vint_at_ok(bytecode@, ib, 0);
            }
            let ghost types_old = types@;
            types.push(Type { name, descriptor });
            rem = rem - 1;
            proof {
                match type_pairs_at(bytecode@, i as int, rem as nat) {
                    Ok(tr) => {
                        assert(types_old + (seq![
                            Type { name: name, descriptor: descriptor },
                        ] + tr.0) =~= types@ + tr.0);
                    },
                    Err(_) => {},
                }
            }
        }
        proof {
            assert(types@ + Seq::<Type>::empty() =~= types@);
        }
        let ghost s_start = i as int;
        let mut sec: usize = 0;
        while sec < 9
            invariant
                sec <= 9,
                i <= n,
                sections_at(bytecode@, s_start, 0) == sections_at(bytecode@, i as int, sec as nat),
            decreases 9 - sec,
        {
            let ghost ic = i as int;
            let v = match get_vint(bytecode.as_slice(), &mut i) {
                Ok(v) => v,
                Err(e) => {
                    return Err(e);
                },
            };
            proof {
                lemma_vint_at_ok(bytecode@, ic, 0);
            }
            if v != 0 {
                return Err(LoadError::UnsupportedSection(sec));
            }
            sec = sec + 1;
        }
        let ghost i5 = i as int;
        proof {
            lemma_vint_at_ok(bytecode@, i2p, 0);
        }
        let mut code: Vec<u8> = Vec::new();
        let mut k3: usize = i;
        while k3 < n
            invariant
                i5 <= k3 <= n,
                n == bytecode@.len(),
                code@ =~= bytecode@.subrange(i5, k3 as int),
            decreases n - k3,
        {
            code.push(bytecode[k3]);
            k3 = k3 + 1;
        }
        let bc = Bytecode { source_hash, global_size, strtable, types, code };
        proof {
            let m = spec_load(bytecode@)->Ok_0;
            assert(bc@ =~= m);
        }
        Ok(bc)
    }
}

} // verus!
