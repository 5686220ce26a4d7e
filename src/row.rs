//! Rows: the bytes of one line as a file holds it, and the splitting of a
//! file's bytes into lines.

use vstd::prelude::*;
use vstd::utf8::{decode_utf8, valid_utf8};

verus! {

/// The line terminator.
pub const NEWLINE: u8 = 10;

/// `b` with a line terminator after it, unless it already ends with one.
pub open spec fn terminated(b: Seq<u8>) -> Seq<u8> {
    if b.len() > 0 && b.last() == NEWLINE {
        b
    } else {
        b.push(NEWLINE)
    }
}

/// The records of `b` split at each terminator byte. A terminator at the very
/// end starts no further record; no bytes give no records.
pub open spec fn records(b: Seq<u8>) -> Seq<Seq<u8>>
    decreases b.len(),
{
    if b.len() == 0 {
        seq![]
    } else {
        let rest = records(b.drop_first());
        if b[0] == NEWLINE {
            seq![Seq::<u8>::empty()] + rest
        } else if rest.len() == 0 {
            seq![seq![b[0]]]
        } else {
            rest.update(0, seq![b[0]] + rest[0])
        }
    }
}

/// Each record followed by a terminator, all in order.
pub open spec fn join_terminated(rs: Seq<Seq<u8>>) -> Seq<u8> {
    rs.map_values(|r: Seq<u8>| r.push(NEWLINE)).flatten()
}

/// Where the first terminator of `s` stands at `k`, the first record is what
/// comes before it and the rest are the records of what follows it.
proof fn lemma_records_first(s: Seq<u8>, k: int)
    requires
        0 <= k < s.len(),
        s[k] == NEWLINE,
        forall|j: int| 0 <= j < k ==> s[j] != NEWLINE,
    ensures
        records(s) == seq![s.take(k)] + records(s.skip(k + 1)),
    decreases k,
{
    if k == 0 {
        assert(s.skip(1) =~= s.drop_first());
        assert(s.take(0) =~= Seq::<u8>::empty());
    } else {
        let t = s.drop_first();
        lemma_records_first(t, k - 1);
        assert(t.skip(k) =~= s.skip(k + 1));
        assert(seq![s[0]] + t.take(k - 1) =~= s.take(k));
        assert(records(s) =~= seq![s.take(k)] + records(s.skip(k + 1)));
    }
}

/// Bytes without a terminator make a single record.
proof fn lemma_records_last(s: Seq<u8>)
    requires
        s.len() > 0,
        forall|j: int| 0 <= j < s.len() ==> s[j] != NEWLINE,
    ensures
        records(s) == seq![s],
    decreases s.len(),
{
    let t = s.drop_first();
    if t.len() == 0 {
        assert(records(t) =~= seq![]);
        assert(seq![s[0]] =~= s);
    } else {
        lemma_records_last(t);
        assert(seq![s[0]] + t =~= s);
        assert(records(s) =~= seq![s]);
    }
}

/// Joining the records of non-empty bytes, each with its terminator, gives the
/// bytes back with a terminator at the end.
pub proof fn lemma_join_records(b: Seq<u8>)
    requires
        b.len() > 0,
    ensures
        join_terminated(records(b)) == terminated(b),
    decreases b.len(),
{
    let t = b.drop_first();
    let rest = records(t);
    let f = |r: Seq<u8>| r.push(NEWLINE);
    if t.len() == 0 {
        assert(rest =~= seq![]);
        let rs = records(b);
        assert(rs.map_values(f).drop_first() =~= seq![]);
        assert(rs.map_values(f).drop_first().flatten() =~= seq![]);
        if b[0] == NEWLINE {
            assert(rs =~= seq![Seq::<u8>::empty()]);
        } else {
            assert(rs =~= seq![seq![b[0]]]);
        }
        assert(join_terminated(rs) =~= terminated(b));
    } else {
        lemma_join_records(t);
        let rs = records(b);
        assert(t.last() == b.last());
        if b[0] == NEWLINE {
            assert(rs.map_values(f).drop_first() =~= rest.map_values(f));
            assert(join_terminated(rs) =~= seq![NEWLINE] + join_terminated(rest));
            assert(seq![NEWLINE] + terminated(t) =~= terminated(b));
        } else {
            assert(rest.len() > 0) by {
                if rest.len() == 0 {
                    assert(rest.map_values(f) =~= seq![]);
                    assert(join_terminated(rest) =~= seq![]);
                }
            }
            assert(rs.map_values(f).drop_first() =~= rest.map_values(f).drop_first());
            assert(rs.map_values(f).first() =~= seq![b[0]] + rest.map_values(f).first());
            assert(join_terminated(rs) =~= seq![b[0]] + join_terminated(rest));
            assert(seq![b[0]] + terminated(t) =~= terminated(b));
        }
    }
}

/// Split `bytes` into its records: each record's bytes, without the
/// terminator.
pub fn split_records(bytes: &[u8]) -> (r: Vec<Vec<u8>>)
    ensures
        r@.map_values(|v: Vec<u8>| v@) == records(bytes@),
{
    let mut out: Vec<Vec<u8>> = Vec::new();
    let mut cur: Vec<u8> = Vec::new();
    let mut i: usize = 0;
    assert(bytes@.skip(0) =~= bytes@);
    assert(out@.map_values(|v: Vec<u8>| v@) + records(bytes@) =~= records(bytes@));
    while i < bytes.len()
        invariant
            0 <= i <= bytes@.len(),
            cur@.len() <= i,
            cur@ == bytes@.subrange(i - cur@.len(), i as int),
            forall|j: int| 0 <= j < cur@.len() ==> cur@[j] != NEWLINE,
            records(bytes@) == out@.map_values(|v: Vec<u8>| v@) + records(
                bytes@.skip(i - cur@.len()),
            ),
        decreases bytes@.len() - i,
    {
        let start = i - cur.len();
        if bytes[i] == NEWLINE {
            proof {
                let s = bytes@.skip(start as int);
                assert(s.take(i - start) =~= cur@);
                lemma_records_first(s, i - start);
                assert(s.skip(i - start + 1) =~= bytes@.skip(i + 1));
            }
            let ghost prev = out@.map_values(|v: Vec<u8>| v@);
            out.push(cur);
            cur = Vec::new();
            proof {
                assert(out@.map_values(|v: Vec<u8>| v@) =~= prev.push(bytes@.subrange(
                    start as int,
                    i as int,
                )));
            }
        } else {
            cur.push(bytes[i]);
        }
        i += 1;
    }
    let start = i - cur.len();
    let ghost prev = out@.map_values(|v: Vec<u8>| v@);
    if cur.len() > 0 {
        proof {
            assert(bytes@.skip(start as int) =~= cur@);
            lemma_records_last(cur@);
        }
        out.push(cur);
        assert(out@.map_values(|v: Vec<u8>| v@) =~= prev.push(bytes@.skip(start as int)));
    } else {
        assert(bytes@.skip(start as int) =~= Seq::<u8>::empty());
    }
    assert(out@.map_values(|v: Vec<u8>| v@) =~= records(bytes@));
    out
}

/// One line's bytes as a file holds them, terminator included.
#[derive(Clone)]
pub struct Row {
    characters: Vec<u8>,
}

impl View for Row {
    type V = Seq<u8>;

    closed spec fn view(&self) -> Seq<u8> {
        self.characters@
    }
}

/// Relies on `String::from_utf8`: the text that `b` encodes when `b` is valid
/// UTF-8, and nothing otherwise.
#[verifier::external_body]
pub(crate) fn decode_bytes(b: &[u8]) -> (r: Option<String>)
    ensures
        r is Some <==> valid_utf8(b@),
        r matches Some(s) ==> s@ == decode_utf8(b@),
{
    String::from_utf8(b.to_vec()).ok()
}

impl Row {
    /// A row of the bytes `chars`, with a terminator added unless they end with
    /// one.
    pub fn from_vec(chars: Vec<u8>) -> (r: Row)
        ensures
            r@ == terminated(chars@),
    {
        let mut chars = chars;
        let n = chars.len();
        if n == 0 || chars[n - 1] != NEWLINE {
            chars.push(NEWLINE);
        }
        Row { characters: chars }
    }

    /// A row of a copy of the bytes `chars`, with a terminator added unless they
    /// end with one.
    pub fn from_slice(chars: &[u8]) -> (r: Row)
        ensures
            r@ == terminated(chars@),
    {
        let mut v: Vec<u8> = Vec::new();
        let mut i: usize = 0;
        while i < chars.len()
            invariant
                0 <= i <= chars@.len(),
                v@ == chars@.take(i as int),
            decreases chars@.len() - i,
        {
            v.push(chars[i]);
            i += 1;
            assert(v@ =~= chars@.take(i as int));
        }
        assert(v@ =~= chars@);
        Row::from_vec(v)
    }

    /// The row's bytes.
    pub fn get_bytes(&self) -> (r: &[u8])
        ensures
            r@ == self@,
    {
        self.characters.as_slice()
    }

    /// The row's text, terminator included.
    pub fn get_string(&mut self) -> (r: String)
        requires
            valid_utf8(old(self)@),
        ensures
            *final(self) == *old(self),
            r@ == decode_utf8(old(self)@),
    {
        match decode_bytes(self.characters.as_slice()) {
            Some(s) => s,
            None => String::new(),
        }
    }
}

} // verus!
