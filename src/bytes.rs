//! Byte strings: the fixed paths and field names of the control API, and
//! the searches and comparisons that routing and form parsing need.
use vstd::prelude::*;

verus! {

/// The bytes of `/`.
pub open spec fn index() -> Seq<u8> {
    seq![47u8]
}

pub fn index_bytes() -> (r: Vec<u8>)
    ensures
        r@ == index(),
{
    let r: Vec<u8> = vec![47u8];
    proof {
        assert(r@ =~= index());
    }
    r
}

/// The bytes of `/buttons.js`.
pub open spec fn buttons_js() -> Seq<u8> {
    seq![47u8, 98u8, 117u8, 116u8, 116u8, 111u8, 110u8, 115u8, 46u8, 106u8, 115u8]
}

pub fn buttons_js_bytes() -> (r: Vec<u8>)
    ensures
        r@ == buttons_js(),
{
    let r: Vec<u8> = vec![47u8, 98u8, 117u8, 116u8, 116u8, 111u8, 110u8, 115u8, 46u8, 106u8, 115u8];
    proof {
        assert(r@ =~= buttons_js());
    }
    r
}

/// The bytes of `/styles.css`.
pub open spec fn styles_css() -> Seq<u8> {
    seq![47u8, 115u8, 116u8, 121u8, 108u8, 101u8, 115u8, 46u8, 99u8, 115u8, 115u8]
}

pub fn styles_css_bytes() -> (r: Vec<u8>)
    ensures
        r@ == styles_css(),
{
    let r: Vec<u8> = vec![47u8, 115u8, 116u8, 121u8, 108u8, 101u8, 115u8, 46u8, 99u8, 115u8, 115u8];
    proof {
        assert(r@ =~= styles_css());
    }
    r
}

/// The bytes of `/increment`.
pub open spec fn increment() -> Seq<u8> {
    seq![47u8, 105u8, 110u8, 99u8, 114u8, 101u8, 109u8, 101u8, 110u8, 116u8]
}

pub fn increment_bytes() -> (r: Vec<u8>)
    ensures
        r@ == increment(),
{
    let r: Vec<u8> = vec![47u8, 105u8, 110u8, 99u8, 114u8, 101u8, 109u8, 101u8, 110u8, 116u8];
    proof {
        assert(r@ =~= increment());
    }
    r
}

/// The bytes of `/get_state`.
pub open spec fn get_state() -> Seq<u8> {
    seq![47u8, 103u8, 101u8, 116u8, 95u8, 115u8, 116u8, 97u8, 116u8, 101u8]
}

pub fn get_state_bytes() -> (r: Vec<u8>)
    ensures
        r@ == get_state(),
{
    let r: Vec<u8> = vec![47u8, 103u8, 101u8, 116u8, 95u8, 115u8, 116u8, 97u8, 116u8, 101u8];
    proof {
        assert(r@ =~= get_state());
    }
    r
}

/// The bytes of `/set_config`.
pub open spec fn set_config() -> Seq<u8> {
    seq![47u8, 115u8, 101u8, 116u8, 95u8, 99u8, 111u8, 110u8, 102u8, 105u8, 103u8]
}

pub fn set_config_bytes() -> (r: Vec<u8>)
    ensures
        r@ == set_config(),
{
    let r: Vec<u8> = vec![47u8, 115u8, 101u8, 116u8, 95u8, 99u8, 111u8, 110u8, 102u8, 105u8, 103u8];
    proof {
        assert(r@ =~= set_config());
    }
    r
}

/// The bytes of `/set/`.
pub open spec fn set_prefix() -> Seq<u8> {
    seq![47u8, 115u8, 101u8, 116u8, 47u8]
}

pub fn set_prefix_bytes() -> (r: Vec<u8>)
    ensures
        r@ == set_prefix(),
{
    let r: Vec<u8> = vec![47u8, 115u8, 101u8, 116u8, 47u8];
    proof {
        assert(r@ =~= set_prefix());
    }
    r
}

/// The bytes of `temperature`.
pub open spec fn temperature_key() -> Seq<u8> {
    seq![116u8, 101u8, 109u8, 112u8, 101u8, 114u8, 97u8, 116u8, 117u8, 114u8, 101u8]
}

pub fn temperature_key_bytes() -> (r: Vec<u8>)
    ensures
        r@ == temperature_key(),
{
    let r: Vec<u8> = vec![116u8, 101u8, 109u8, 112u8, 101u8, 114u8, 97u8, 116u8, 117u8, 114u8, 101u8];
    proof {
        assert(r@ =~= temperature_key());
    }
    r
}

/// The bytes of `time`.
pub open spec fn time_key() -> Seq<u8> {
    seq![116u8, 105u8, 109u8, 101u8]
}

pub fn time_key_bytes() -> (r: Vec<u8>)
    ensures
        r@ == time_key(),
{
    let r: Vec<u8> = vec![116u8, 105u8, 109u8, 101u8];
    proof {
        assert(r@ =~= time_key());
    }
    r
}

/// Compares two byte strings.
pub fn bytes_eq(a: &[u8], b: &[u8]) -> (r: bool)
    ensures
        r == (a@ == b@),
{
    if a.len() != b.len() {
        return false;
    }
    let mut i: usize = 0;
    while i < a.len()
        invariant
            a@.len() == b@.len(),
            0 <= i <= a@.len(),
            forall|j: int| 0 <= j < i ==> a@[j] == b@[j],
        decreases a.len() - i,
    {
        if a[i] != b[i] {
            return false;
        }
        i = i + 1;
    }
    assert(a@ =~= b@);
    true
}

/// The position of the first `b` in `s`, or the length of `s` where there is none.
pub open spec fn first_index(s: Seq<u8>, b: u8) -> int
    decreases s.len(),
{
    if s.len() == 0 {
        0
    } else if s[0] == b {
        0
    } else {
        1 + first_index(s.drop_first(), b)
    }
}

pub proof fn lemma_first_index(s: Seq<u8>, b: u8)
    ensures
        0 <= first_index(s, b) <= s.len(),
        first_index(s, b) < s.len() ==> s[first_index(s, b)] == b,
        forall|j: int| 0 <= j < first_index(s, b) ==> s[j] != b,
    decreases s.len(),
{
    if s.len() > 0 && s[0] != b {
        lemma_first_index(s.drop_first(), b);
        assert forall|j: int| 0 <= j < first_index(s, b) implies s[j] != b by {
            if j > 0 {
                assert(s[j] == s.drop_first()[j - 1]);
            }
        }
    }
}

/// The bytes of `s` from `from` on.
pub open spec fn tail(s: Seq<u8>, from: int) -> Seq<u8> {
    s.subrange(from, s.len() as int)
}

/// Finds the first `b` at or after `from`.
pub fn find_byte(s: &[u8], from: usize, b: u8) -> (r: usize)
    requires
        from <= s@.len(),
    ensures
        r == from + first_index(tail(s@, from as int), b),
        from <= r <= s@.len(),
{
    let mut i: usize = from;
    while i < s.len()
        invariant
            from <= i <= s@.len(),
            first_index(tail(s@, from as int), b) == (i - from) + first_index(tail(s@, i as int), b),
        decreases s.len() - i,
    {
        if s[i] == b {
            return i;
        }
        assert(tail(s@, i as int).drop_first() =~= tail(s@, i as int + 1));
        i = i + 1;
    }
    proof {
        lemma_first_index(tail(s@, from as int), b);
    }
    i
}

/// Copies `s[from..to]`.
pub fn copy_range(s: &[u8], from: usize, to: usize) -> (r: Vec<u8>)
    requires
        from <= to <= s@.len(),
    ensures
        r@ == s@.subrange(from as int, to as int),
{
    let mut r: Vec<u8> = Vec::new();
    let mut i: usize = from;
    while i < to
        invariant
            from <= i <= to <= s@.len(),
            r@ == s@.subrange(from as int, i as int),
        decreases to - i,
    {
        r.push(s[i]);
        assert(r@ =~= s@.subrange(from as int, i as int + 1));
        i = i + 1;
    }
    r
}

} // verus!
