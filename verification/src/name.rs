//! The domain-name codec.
//!
//! A name is carried canonically as its dotted bytes (`www.example.com`)
//! with no trailing dot and no empty labels. On the wire each label is a
//! length octet followed by its bytes, and a zero octet ends the name. A
//! length octet with both high bits set would start a compression pointer,
//! which this codec rejects rather than misreads.

use vstd::prelude::*;

use crate::errors::DecodeError;
use crate::errors::EncodeError;

verus! {

/// The labels of the dotted bytes from `i` on, the bytes before `i` of the
/// current label already gathered in `cur`: a left-to-right scan that cuts
/// at every dot.
pub open spec fn spec_labels_from(name: Seq<u8>, i: int, cur: Seq<u8>) -> Seq<Seq<u8>>
    decreases name.len() - i,
{
    if i < 0 || i >= name.len() {
        seq![cur]
    } else if name[i] == 46 {
        seq![cur] + spec_labels_from(name, i + 1, seq![])
    } else {
        spec_labels_from(name, i + 1, cur.push(name[i]))
    }
}

/// The label sequence of a dotted name; the empty name is the root and has
/// no labels.
pub open spec fn spec_name_labels(name: Seq<u8>) -> Seq<Seq<u8>> {
    if name.len() == 0 {
        seq![]
    } else {
        spec_labels_from(name, 0, seq![])
    }
}

/// A label must fit a single length octet with the two high bits free.
pub open spec fn valid_label(l: Seq<u8>) -> bool {
    1 <= l.len() <= 63
}

pub open spec fn valid_labels(ls: Seq<Seq<u8>>) -> bool {
    forall|j: int| 0 <= j < ls.len() ==> valid_label(#[trigger] ls[j])
}

/// A dotted name is encodable exactly when each of its labels is.
pub open spec fn valid_name(name: Seq<u8>) -> bool {
    valid_labels(spec_name_labels(name))
}

/// The wire form of a label sequence: a length octet and the bytes of each
/// label, then the terminating zero octet.
pub open spec fn spec_encode_labels(ls: Seq<Seq<u8>>) -> Seq<u8>
    decreases ls.len(),
{
    if ls.len() == 0 {
        seq![0u8]
    } else {
        seq![ls[0].len() as u8] + ls[0] + spec_encode_labels(ls.drop_first())
    }
}

/// The wire form of a dotted name.
pub open spec fn spec_encode_name(name: Seq<u8>) -> Seq<u8> {
    spec_encode_labels(spec_name_labels(name))
}

/// The dotted bytes that a label sequence joins back into.
pub open spec fn spec_join_labels(ls: Seq<Seq<u8>>) -> Seq<u8>
    decreases ls.len(),
{
    if ls.len() == 0 {
        seq![]
    } else if ls.len() == 1 {
        ls[0]
    } else {
        ls[0] + seq![46u8] + spec_join_labels(ls.drop_first())
    }
}

/// Reading length-prefixed labels at `i` until a zero octet: the dotted
/// name and the octets consumed, or the first failure. Every read is held
/// to the buffer end, and a compression pointer octet is refused.
pub open spec fn spec_decode_name_raw(bytes: Seq<u8>, i: int) -> Result<(Seq<u8>, int), DecodeError>
    decreases bytes.len() - i,
{
    if i < 0 || i >= bytes.len() {
        Err(DecodeError::Truncated)
    } else if bytes[i] == 0 {
        Ok((seq![], 1))
    } else if bytes[i] >= 192 {
        Err(DecodeError::CompressionUnsupported)
    } else if i + 1 + (bytes[i] as int) > bytes.len() {
        Err(DecodeError::Truncated)
    } else {
        match spec_decode_name_raw(bytes, i + 1 + (bytes[i] as int)) {
            Ok((rest, c)) => {
                let label = bytes.subrange(i + 1, i + 1 + (bytes[i] as int));
                let joined = if rest.len() == 0 {
                    label
                } else {
                    label + seq![46u8] + rest
                };
                Ok((joined, 1 + (bytes[i] as int) + c))
            },
            Err(e) => Err(e),
        }
    }
}

/// `spec_decode_name_raw` with the protocol's bound on the encoded name:
/// more than 255 consumed octets is `NameTooLong`.
pub open spec fn spec_decode_name(bytes: Seq<u8>, i: int) -> Result<(Seq<u8>, int), DecodeError> {
    match spec_decode_name_raw(bytes, i) {
        Ok((name, c)) => {
            if c > 255 {
                Err(DecodeError::NameTooLong)
            } else {
                Ok((name, c))
            }
        },
        Err(e) => Err(e),
    }
}

/// A label scan yields at least one label: the one being gathered.
pub proof fn lemma_labels_from_nonempty(name: Seq<u8>, i: int, cur: Seq<u8>)
    ensures
        spec_labels_from(name, i, cur).len() >= 1,
    decreases name.len() - i,
{
    if 0 <= i < name.len() {
        if name[i] == 46 {
            lemma_labels_from_nonempty(name, i + 1, seq![]);
        } else {
            lemma_labels_from_nonempty(name, i + 1, cur.push(name[i]));
        }
    }
}

/// Joining the labels of a scan gives back the scanned bytes: the label
/// cut at every dot loses nothing.
pub proof fn lemma_join_labels_from(name: Seq<u8>, i: int, cur: Seq<u8>)
    requires
        0 <= i <= name.len(),
    ensures
        spec_join_labels(spec_labels_from(name, i, cur)) == cur + name.subrange(
            i,
            name.len() as int,
        ),
    decreases name.len() - i,
{
    if i >= name.len() {
        assert(cur + name.subrange(i, name.len() as int) =~= cur);
    } else if name[i] == 46 {
        let rest = spec_labels_from(name, i + 1, seq![]);
        lemma_labels_from_nonempty(name, i + 1, seq![]);
        lemma_join_labels_from(name, i + 1, seq![]);
        let ls = seq![cur] + rest;
        assert(ls.drop_first() =~= rest);
        assert(spec_join_labels(rest) =~= name.subrange(i + 1, name.len() as int));
        assert(cur + seq![46u8] + name.subrange(i + 1, name.len() as int) =~= cur + name.subrange(
            i,
            name.len() as int,
        ));
    } else {
        lemma_join_labels_from(name, i + 1, cur.push(name[i]));
        assert(cur.push(name[i]) + name.subrange(i + 1, name.len() as int) =~= cur + name.subrange(
            i,
            name.len() as int,
        ));
    }
}

/// Valid labels join into a nonempty name.
pub proof fn lemma_join_labels_nonempty(ls: Seq<Seq<u8>>)
    requires
        valid_labels(ls),
        ls.len() >= 1,
    ensures
        spec_join_labels(ls).len() >= 1,
{
    assert(valid_label(ls[0]));
}

/// Decoding an encoded label sequence, wherever it stands in a buffer,
/// gives back the joined labels and consumes exactly the encoding.
pub proof fn lemma_decode_encoded_labels(all: Seq<u8>, i: int, ls: Seq<Seq<u8>>)
    requires
        valid_labels(ls),
        0 <= i,
        i + spec_encode_labels(ls).len() <= all.len(),
        all.subrange(i, i + spec_encode_labels(ls).len() as int) == spec_encode_labels(ls),
    ensures
        spec_decode_name_raw(all, i) == Ok::<(Seq<u8>, int), DecodeError>(
            (spec_join_labels(ls), spec_encode_labels(ls).len() as int),
        ),
    decreases ls.len(),
{
    let enc = spec_encode_labels(ls);
    let sub = all.subrange(i, i + enc.len() as int);
    if ls.len() == 0 {
        assert(all[i] == sub[0]);
        assert(all[i] == 0);
    } else {
        let l0 = ls[0];
        let rest = ls.drop_first();
        let enc_rest = spec_encode_labels(rest);
        assert(valid_label(l0));
        assert(enc == seq![l0.len() as u8] + l0 + enc_rest);
        assert(all[i] == sub[0]);
        assert(sub[0] == l0.len() as u8);
        assert((l0.len() as u8) as int == l0.len() as int);
        assert(1 <= all[i] <= 63);
        assert(all.subrange(i + 1, i + 1 + l0.len() as int) =~= l0) by {
            assert forall|k: int| 0 <= k < l0.len() implies all[i + 1 + k] == l0[k] by {
                assert(all[i + 1 + k] == sub[1 + k]);
            }
        }
        assert forall|k: int| 0 <= k < rest.len() implies valid_label(#[trigger] rest[k]) by {
            assert(rest[k] == ls[k + 1]);
        }
        let j = i + 1 + l0.len() as int;
        assert(all.subrange(j, j + enc_rest.len() as int) =~= enc_rest) by {
            assert forall|k: int| 0 <= k < enc_rest.len() implies all[j + k] == enc_rest[k] by {
                assert(all[j + k] == sub[1 + l0.len() + k]);
            }
        }
        lemma_decode_encoded_labels(all, j, rest);
        if rest.len() == 0 {
            assert(spec_join_labels(rest).len() == 0);
            assert(spec_join_labels(ls) == l0);
        } else {
            lemma_join_labels_nonempty(rest);
            assert(spec_join_labels(ls) == l0 + seq![46u8] + spec_join_labels(rest));
        }
    }
}

/// Round trip: decoding the wire form of a well-formed dotted name, at any
/// offset of any buffer that holds it whole, gives back the same name and
/// consumes exactly its encoding.
pub proof fn lemma_decode_encoded_name(all: Seq<u8>, i: int, name: Seq<u8>)
    requires
        valid_name(name),
        0 <= i,
        i + spec_encode_name(name).len() <= all.len(),
        all.subrange(i, i + spec_encode_name(name).len() as int) == spec_encode_name(name),
    ensures
        spec_decode_name_raw(all, i) == Ok::<(Seq<u8>, int), DecodeError>(
            (name, spec_encode_name(name).len() as int),
        ),
{
    let ls = spec_name_labels(name);
    lemma_decode_encoded_labels(all, i, ls);
    if name.len() == 0 {
        assert(spec_join_labels(ls) =~= name);
    } else {
        lemma_join_labels_from(name, 0, seq![]);
        assert(seq![] + name.subrange(0, name.len() as int) =~= name);
    }
}

/// A name holding a label longer than 63 bytes, or an empty one, is not
/// encodable: `encode_name` refuses it with `LabelTooLong`.
pub proof fn lemma_invalid_label_rejected(name: Seq<u8>, j: int)
    requires
        0 <= j < spec_name_labels(name).len(),
        !valid_label(spec_name_labels(name)[j]),
    ensures
        !valid_name(name),
{
}

/// Encodes a dotted name into its wire form. Fails, touching nothing, when
/// a label is empty or longer than 63 bytes; succeeds on every other input.
pub fn encode_name(name: &Vec<u8>) -> (r: Result<Vec<u8>, EncodeError>)
    ensures
        (r is Ok <==> valid_name(name@)),
        (r matches Ok(v) ==> v@ == spec_encode_name(name@)),
        (r is Err ==> r == Err::<Vec<u8>, EncodeError>(EncodeError::LabelTooLong)),
{
    let n: usize = name.len();
    let mut out: Vec<u8> = Vec::new();
    if n == 0 {
        out.push(0);
        proof {
            assert(out@ =~= spec_encode_name(name@));
        }
        return Ok(out);
    }
    let mut start: usize = 0;
    proof {
        assert(out@ + spec_encode_labels(spec_labels_from(name@, 0, seq![])) =~= spec_encode_labels(
            spec_labels_from(name@, 0, seq![]),
        ));
    }
    loop
        invariant
            n == name@.len(),
            1 <= n,
            start <= n,
            spec_encode_name(name@) == out@ + spec_encode_labels(
                spec_labels_from(name@, start as int, seq![]),
            ),
            (valid_name(name@) <==> valid_labels(spec_labels_from(name@, start as int, seq![]))),
        decreases n - start,
    {
        let mut j: usize = start;
        proof {
            assert(name@.subrange(start as int, start as int) =~= Seq::<u8>::empty());
        }
        while j < n && name[j] != 46
            invariant
                start <= j <= n,
                n == name@.len(),
                spec_labels_from(name@, start as int, seq![]) == spec_labels_from(
                    name@,
                    j as int,
                    name@.subrange(start as int, j as int),
                ),
            decreases n - j,
        {
            proof {
                assert(name@.subrange(start as int, j as int).push(name@[j as int]) =~= name@
                    .subrange(start as int, j as int + 1));
            }
            j = j + 1;
        }
        let ghost cur = name@.subrange(start as int, j as int);
        let llen: usize = j - start;
        if llen == 0 || llen > 63 {
            proof {
                let ls = spec_labels_from(name@, start as int, seq![]);
                assert(ls[0] == cur);
                assert(!valid_label(cur));
            }
            return Err(EncodeError::LabelTooLong);
        }
        out.push(llen as u8);
        crate::wire::push_range(&mut out, name, start, j);
        if j == n {
            out.push(0);
            proof {
                let ls = spec_labels_from(name@, start as int, seq![]);
                assert(ls =~= seq![cur]);
                assert(ls.drop_first() =~= Seq::<Seq<u8>>::empty());
                assert(spec_encode_labels(ls.drop_first()) == seq![0u8]);
                assert(spec_encode_labels(ls) =~= seq![cur.len() as u8] + cur + seq![0u8]);
                assert(out@ =~= spec_encode_name(name@));
                assert forall|k: int| 0 <= k < ls.len() implies valid_label(#[trigger] ls[k]) by {
                    assert(ls[k] == cur);
                }
            }
            return Ok(out);
        }
        proof {
            let ls = spec_labels_from(name@, start as int, seq![]);
            let rest = spec_labels_from(name@, j as int + 1, seq![]);
            assert(ls =~= seq![cur] + rest);
            assert(ls.drop_first() =~= rest);
            assert(spec_encode_labels(ls) == seq![cur.len() as u8] + cur + spec_encode_labels(rest));
            assert(spec_encode_name(name@) =~= out@ + spec_encode_labels(rest));
            assert(valid_labels(ls) <==> valid_labels(rest)) by {
                if valid_labels(ls) {
                    assert forall|k: int| 0 <= k < rest.len() implies valid_label(
                        #[trigger] rest[k],
                    ) by {
                        assert(rest[k] == ls[k + 1]);
                    }
                }
                if valid_labels(rest) {
                    assert forall|k: int| 0 <= k < ls.len() implies valid_label(
                        #[trigger] ls[k],
                    ) by {
                        if k == 0 {
                            assert(ls[0] == cur);
                        } else {
                            assert(ls[k] == rest[k - 1]);
                        }
                    }
                }
            }
        }
        start = j + 1;
    }
}

/// Reads the name whose labels begin at `i`, returning the dotted bytes
/// and the count of octets consumed, exactly as `spec_decode_name_raw`
/// lays them down.
fn decode_name_raw(bytes: &Vec<u8>, i: usize) -> (r: Result<(Vec<u8>, usize), DecodeError>)
    ensures
        (r matches Ok((name, c)) ==> spec_decode_name_raw(bytes@, i as int) == Ok::<
            (Seq<u8>, int),
            DecodeError,
        >((name@, c as int)) && i + c <= bytes@.len() && 1 <= c),
        (r matches Err(e) ==> spec_decode_name_raw(bytes@, i as int) == Err::<
            (Seq<u8>, int),
            DecodeError,
        >(e)),
    decreases bytes@.len() - i,
{
    let n: usize = bytes.len();
    if i >= n {
        return Err(DecodeError::Truncated);
    }
    let len: u8 = bytes[i];
    if len == 0 {
        return Ok((Vec::new(), 1));
    }
    if len >= 192 {
        return Err(DecodeError::CompressionUnsupported);
    }
    let llen: usize = len as usize;
    if n - i - 1 < llen {
        return Err(DecodeError::Truncated);
    }
    match decode_name_raw(bytes, i + 1 + llen) {
        Err(e) => Err(e),
        Ok((mut rest, c)) => {
            let ghost rest0 = rest@;
            let ghost lbl = bytes@.subrange(i as int + 1, i as int + 1 + llen as int);
            let mut joined: Vec<u8> = Vec::new();
            crate::wire::push_range(&mut joined, bytes, i + 1, i + 1 + llen);
            proof {
                assert(joined@ =~= lbl);
            }
            if rest.len() > 0 {
                joined.push(46);
                joined.append(&mut rest);
                proof {
                    assert(joined@ =~= lbl + seq![46u8] + rest0);
                }
            }
            Ok((joined, 1 + llen + c))
        },
    }
}

/// Reads the name whose labels begin at `start`: the dotted bytes and the
/// octets consumed. Fails `Truncated` when a length octet or label would
/// pass the buffer end, `CompressionUnsupported` on a pointer octet, and
/// `NameTooLong` when the encoded name exceeds 255 octets.
pub fn decode_name(bytes: &Vec<u8>, start: usize) -> (r: Result<(Vec<u8>, usize), DecodeError>)
    ensures
        (r matches Ok((name, c)) ==> spec_decode_name(bytes@, start as int) == Ok::<
            (Seq<u8>, int),
            DecodeError,
        >((name@, c as int)) && start + c <= bytes@.len() && 1 <= c <= 255),
        (r matches Err(e) ==> spec_decode_name(bytes@, start as int) == Err::<
            (Seq<u8>, int),
            DecodeError,
        >(e)),
{
    match decode_name_raw(bytes, start) {
        Err(e) => Err(e),
        Ok((name, c)) => {
            if c > 255 {
                Err(DecodeError::NameTooLong)
            } else {
                Ok((name, c))
            }
        },
    }
}

} // verus!
