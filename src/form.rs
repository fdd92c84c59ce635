//! The form that `POST /set_config` carries: `application/x-www-form-urlencoded`
//! pairs, of which `temperature` and `time` are read as integers.
use vstd::prelude::*;
use crate::bytes::{
    copy_range, find_byte, first_index, lemma_first_index, tail, temperature_key,
    temperature_key_bytes, time_key, time_key_bytes, bytes_eq,
};
use crate::decimal::{parse_i32, parse_i32_spec};
use crate::urlenc::{has_ff_escape, no_ff_escape, url_decode, url_decoded};

verus! {

/// The two fields of the configuration form.
#[derive(Clone, Copy, Debug, PartialEq, Eq, Structural)]
pub struct FormValue {
    pub temperature: i32,
    pub time: i32,
}

/// The pieces of `s` between the `&` separators, in order.
pub open spec fn split_amp(s: Seq<u8>) -> Seq<Seq<u8>>
    decreases s.len(),
{
    let k = first_index(s, 38u8);
    if 0 <= k < s.len() {
        seq![s.subrange(0, k)].add(split_amp(s.subrange(k + 1, s.len() as int)))
    } else {
        seq![s]
    }
}

/// The fields read so far, `(temperature, time)`.
pub type Fields = (Option<i32>, Option<i32>);

/// Reads one pair into the fields; `None` marks a malformed form. An empty
/// piece is skipped; a piece needs an `=`; both sides must decode, and hold
/// no `%FF` escape, on which decoding fails or panics; a known
/// field may come once and must hold an integer; other fields are ignored.
pub open spec fn pair_step(acc: Option<Fields>, pair: Seq<u8>) -> Option<Fields> {
    match acc {
        None => None,
        Some((t, m)) => if pair.len() == 0 {
            acc
        } else {
            let e = first_index(pair, 61u8);
            if e >= pair.len() {
                None
            } else if !no_ff_escape(pair.subrange(0, e)) || !no_ff_escape(
                pair.subrange(e + 1, pair.len() as int),
            ) {
                None
            } else {
                match (url_decoded(pair.subrange(0, e)), url_decoded(pair.subrange(e + 1, pair.len() as int))) {
                    (Some(k), Some(v)) => if k == temperature_key() {
                        match (t, parse_i32_spec(v)) {
                            (None, Some(x)) => Some((Some(x), m)),
                            _ => None,
                        }
                    } else if k == time_key() {
                        match (m, parse_i32_spec(v)) {
                            (None, Some(x)) => Some((t, Some(x))),
                            _ => None,
                        }
                    } else {
                        acc
                    },
                    _ => None,
                }
            }
        },
    }
}

pub open spec fn fold_pairs(pairs: Seq<Seq<u8>>, acc: Option<Fields>) -> Option<Fields>
    decreases pairs.len(),
{
    if pairs.len() == 0 {
        acc
    } else {
        fold_pairs(pairs.drop_first(), pair_step(acc, pairs[0]))
    }
}

/// The configuration a form body holds, if it is well formed and has both fields.
pub open spec fn form_spec(body: Seq<u8>) -> Option<FormValue> {
    match fold_pairs(split_amp(body), Some((None, None))) {
        Some((Some(t), Some(m))) => Some(FormValue { temperature: t, time: m }),
        _ => None,
    }
}

proof fn lemma_fold_none(pairs: Seq<Seq<u8>>)
    ensures
        fold_pairs(pairs, None) is None,
    decreases pairs.len(),
{
    if pairs.len() > 0 {
        lemma_fold_none(pairs.drop_first());
    }
}

/// Reads the pair `body[from..to]` into the fields `(t, m)`.
fn read_pair(body: &[u8], from: usize, to: usize, t: Option<i32>, m: Option<i32>) -> (r: Option<Fields>)
    requires
        from <= to <= body@.len(),
    ensures
        r == pair_step(Some((t, m)), body@.subrange(from as int, to as int)),
{
    let pair = copy_range(body, from, to);
    if from == to {
        return Some((t, m));
    }
    let e = find_byte(&pair, 0, 61u8);
    assert(tail(pair@, 0) =~= pair@);
    if e >= pair.len() {
        return None;
    }
    let key = copy_range(&pair, 0, e);
    let value = copy_range(&pair, e + 1, pair.len());
    if has_ff_escape(&key) || has_ff_escape(&value) {
        return None;
    }
    let k = url_decode(&key);
    let v = url_decode(&value);
    match (k, v) {
        (Some(k), Some(v)) => {
            let tk = temperature_key_bytes();
            let mk = time_key_bytes();
            if bytes_eq(&k, &tk) {
                match (t, parse_i32(&v)) {
                    (None, Some(x)) => Some((Some(x), m)),
                    _ => None,
                }
            } else if bytes_eq(&k, &mk) {
                match (m, parse_i32(&v)) {
                    (None, Some(x)) => Some((t, Some(x))),
                    _ => None,
                }
            } else {
                Some((t, m))
            }
        },
        _ => None,
    }
}

/// Reads the configuration form of `POST /set_config`.
pub fn parse_form(body: &[u8]) -> (r: Option<FormValue>)
    ensures
        r == form_spec(body@),
{
    let n = body.len();
    let mut pos: usize = 0;
    let mut t: Option<i32> = None;
    let mut m: Option<i32> = None;
    assert(tail(body@, 0) =~= body@);
    loop
        invariant_except_break
            fold_pairs(split_amp(body@), Some((None, None))) == fold_pairs(
                split_amp(tail(body@, pos as int)),
                Some((t, m)),
            ),
        invariant
            n == body@.len(),
            pos <= n,
        ensures
            fold_pairs(split_amp(body@), Some((None, None))) == Some((t, m)),
        decreases n - pos,
    {
        let k = find_byte(body, pos, 38u8);
        let ghost rest = tail(body@, pos as int);
        let ghost pieces = split_amp(rest);
        proof {
            lemma_first_index(rest, 38u8);
            assert(rest.subrange(0, k - pos) =~= body@.subrange(pos as int, k as int));
            if k < n {
                assert(rest.subrange(k - pos + 1, rest.len() as int) =~= tail(body@, k + 1));
                assert(pieces.drop_first() =~= split_amp(tail(body@, k + 1)));
            } else {
                assert(rest =~= body@.subrange(pos as int, k as int));
                assert(pieces.drop_first() =~= Seq::<Seq<u8>>::empty());
            }
        }
        let step = read_pair(body, pos, k, t, m);
        proof {
            assert(pieces[0] == body@.subrange(pos as int, k as int));
            assert(fold_pairs(pieces, Some((t, m))) == fold_pairs(pieces.drop_first(), step));
        }
        match step {
            None => {
                proof {
                    lemma_fold_none(pieces.drop_first());
                }
                return None;
            },
            Some((t2, m2)) => {
                t = t2;
                m = m2;
            },
        }
        if k >= n {
            break;
        }
        pos = k + 1;
    }
    match (t, m) {
        (Some(a), Some(b)) => Some(FormValue { temperature: a, time: b }),
        _ => None,
    }
}

} // verus!
