use vstd::prelude::*;

use crate::text::join3;

verus! {

broadcast use vstd::seq_lib::group_to_multiset_ensures, vstd::multiset::group_multiset_axioms;

/// `a` and `b` agree on their first `i` characters.
pub open spec fn agree_before(a: Seq<char>, b: Seq<char>, i: int) -> bool {
    forall|j: int| 0 <= j < i ==> a[j] == b[j]
}

/// `a` is a prefix of `b`.
pub open spec fn is_prefix(a: Seq<char>, b: Seq<char>) -> bool {
    a.len() <= b.len() && agree_before(a, b, a.len() as int)
}

/// `a` and `b` agree before position `i` and `a` has the smaller character at `i`.
pub open spec fn first_diff_less(a: Seq<char>, b: Seq<char>, i: int) -> bool {
    &&& 0 <= i < a.len()
    &&& i < b.len()
    &&& agree_before(a, b, i)
    &&& (a[i] as int) < (b[i] as int)
}

/// Lexicographic order on character sequences, by code point (the order of
/// `str`'s comparison, since UTF-8 keeps the order of code points).
pub open spec fn lex_le(a: Seq<char>, b: Seq<char>) -> bool {
    is_prefix(a, b) || exists|i: int| #[trigger] first_diff_less(a, b, i)
}

proof fn lemma_lex_split(a: Seq<char>, b: Seq<char>, i: int)
    requires
        0 <= i <= a.len(),
        i <= b.len(),
        agree_before(a, b, i),
    ensures
        lex_le(a, b) || lex_le(b, a),
    decreases a.len() - i,
{
    if i == a.len() || i == b.len() {
        if a.len() <= b.len() {
            assert(is_prefix(a, b));
        } else {
            assert(is_prefix(b, a));
        }
    } else if a[i] != b[i] {
        if (a[i] as int) < (b[i] as int) {
            assert(first_diff_less(a, b, i));
        } else {
            assert(first_diff_less(b, a, i));
        }
    } else {
        lemma_lex_split(a, b, i + 1);
    }
}

proof fn lemma_lex_total(a: Seq<char>, b: Seq<char>)
    ensures
        lex_le(a, b) || lex_le(b, a),
{
    lemma_lex_split(a, b, 0);
}

proof fn lemma_lex_trans(a: Seq<char>, b: Seq<char>, c: Seq<char>)
    requires
        lex_le(a, b),
        lex_le(b, c),
    ensures
        lex_le(a, c),
{
    if is_prefix(a, b) {
        if is_prefix(b, c) {
            assert(is_prefix(a, c));
        } else {
            let k = choose|k: int| #[trigger] first_diff_less(b, c, k);
            if k < a.len() {
                assert(first_diff_less(a, c, k));
            } else {
                assert(is_prefix(a, c));
            }
        }
    } else {
        let i = choose|i: int| #[trigger] first_diff_less(a, b, i);
        if is_prefix(b, c) {
            assert(first_diff_less(a, c, i));
        } else {
            let k = choose|k: int| #[trigger] first_diff_less(b, c, k);
            if i <= k {
                assert(first_diff_less(a, c, i));
            } else {
                assert(first_diff_less(a, c, k));
            }
        }
    }
}

/// A serial device: its port name and, for a USB device, its product label.
#[derive(Debug, Clone, Default)]
pub struct SerialPortInfo {
    pub port: String,
    pub product: Option<String>,
}

/// `p` exposes a product label.
pub open spec fn labeled(p: SerialPortInfo) -> bool {
    p.product is Some
}

/// Order of the port list: labelled devices first, then by port name.
pub open spec fn port_le(a: SerialPortInfo, b: SerialPortInfo) -> bool {
    (labeled(a) && !labeled(b)) || (labeled(a) == labeled(b) && lex_le(a.port@, b.port@))
}

/// Every port of `s` comes before or with each port that follows it.
pub open spec fn ports_sorted(s: Seq<SerialPortInfo>) -> bool {
    forall|i: int, j: int| 0 <= i < j < s.len() ==> port_le(#[trigger] s[i], #[trigger] s[j])
}

proof fn lemma_port_total(a: SerialPortInfo, b: SerialPortInfo)
    ensures
        port_le(a, b) || port_le(b, a),
{
    lemma_lex_total(a.port@, b.port@);
}

proof fn lemma_port_trans(a: SerialPortInfo, b: SerialPortInfo, c: SerialPortInfo)
    requires
        port_le(a, b),
        port_le(b, c),
    ensures
        port_le(a, c),
{
    if labeled(a) == labeled(b) && labeled(b) == labeled(c) {
        lemma_lex_trans(a.port@, b.port@, c.port@);
    }
}

proof fn lemma_port_refl(a: SerialPortInfo)
    ensures
        port_le(a, a),
{
    assert(is_prefix(a.port@, a.port@));
}

impl SerialPortInfo {
    pub fn new(port: String, product: Option<String>) -> (r: SerialPortInfo)
        ensures
            r.port == port,
            r.product == product,
    {
        SerialPortInfo { port, product }
    }

    /// The port as shown to the user: `port - product`, or the port alone.
    pub fn display_name(&self) -> (r: String)
        ensures
            self.product is Some ==> r@ == self.port@ + " - "@ + self.product->Some_0@,
            self.product is None ==> r@ == self.port@,
    {
        match &self.product {
            Some(product) => join3(self.port.as_str(), " - ", product.as_str()),
            None => self.port.clone(),
        }
    }
}

/// Compares two port names lexicographically.
pub fn port_name_le(a: &str, b: &str) -> (r: bool)
    ensures
        r == lex_le(a@, b@),
{
    let la = a.unicode_len();
    let lb = b.unicode_len();
    let mut i: usize = 0;
    while i < la && i < lb
        invariant
            la == a@.len(),
            lb == b@.len(),
            i <= la,
            i <= lb,
            agree_before(a@, b@, i as int),
        decreases la - i,
    {
        let ca = a.get_char(i);
        let cb = b.get_char(i);
        if ca != cb {
            let less = (ca as u32) < (cb as u32);
            proof {
                if less {
                    assert(first_diff_less(a@, b@, i as int));
                } else {
                    assert(!is_prefix(a@, b@));
                    assert forall|k: int| !first_diff_less(a@, b@, k) by {
                        if first_diff_less(a@, b@, k) {
                            if k > i {
                                assert(a@[i as int] == b@[i as int]);
                            }
                        }
                    }
                }
            }
            return less;
        }
        i = i + 1;
    }
    proof {
        if la > lb {
            assert(!is_prefix(a@, b@));
            assert forall|k: int| !first_diff_less(a@, b@, k) by {}
        }
    }
    la <= lb
}

fn port_le_exec(a: &SerialPortInfo, b: &SerialPortInfo) -> (r: bool)
    ensures
        r == port_le(*a, *b),
{
    let la = a.product.is_some();
    let lb = b.product.is_some();
    if la && !lb {
        true
    } else if la == lb {
        port_name_le(a.port.as_str(), b.port.as_str())
    } else {
        false
    }
}

/// `perm` tells, for each position of `output`, the position of `input` it
/// comes from: each input position once, and ports that compare equal keep
/// the order they had in `input`.
pub open spec fn stable_perm(input: Seq<SerialPortInfo>, output: Seq<SerialPortInfo>, perm: Seq<int>) -> bool {
    &&& perm.len() == output.len()
    &&& output.len() == input.len()
    &&& forall|k: int| 0 <= k < perm.len() ==> 0 <= #[trigger] perm[k] < input.len()
    &&& forall|k: int| 0 <= k < perm.len() ==> #[trigger] output[k] == input[perm[k]]
    &&& forall|k1: int, k2: int| 0 <= k1 < k2 < perm.len() ==> #[trigger] perm[k1] != #[trigger] perm[k2]
    &&& forall|k1: int, k2: int|
        0 <= k1 < k2 < perm.len() && port_le(#[trigger] output[k2], #[trigger] output[k1]) ==> perm[k1] < perm[k2]
}

/// Sorts the ports: labelled devices first, each group by port name; ports
/// that compare equal keep their order.
pub fn sort_ports(ports: Vec<SerialPortInfo>) -> (r: Vec<SerialPortInfo>)
    ensures
        ports_sorted(r@),
        r@.to_multiset() == ports@.to_multiset(),
        exists|perm: Seq<int>| stable_perm(ports@, r@, perm),
{
    let ghost input = ports@;
    let mut rest = ports;
    let mut out: Vec<SerialPortInfo> = Vec::new();
    let ghost mut perm: Seq<int> = Seq::empty();
    while rest.len() > 0
        invariant
            ports_sorted(out@),
            out@.to_multiset().add(rest@.to_multiset()) == input.to_multiset(),
            out@.len() + rest@.len() == input.len(),
            rest@ == input.subrange(out@.len() as int, input.len() as int),
            perm.len() == out@.len(),
            forall|k: int| 0 <= k < perm.len() ==> 0 <= #[trigger] perm[k] < out@.len(),
            forall|k: int| 0 <= k < perm.len() ==> #[trigger] out@[k] == input[perm[k]],
            forall|k1: int, k2: int| 0 <= k1 < k2 < perm.len() ==> #[trigger] perm[k1] != #[trigger] perm[k2],
            forall|k1: int, k2: int|
                0 <= k1 < k2 < perm.len() && port_le(#[trigger] out@[k2], #[trigger] out@[k1]) ==> perm[k1]
                    < perm[k2],
        decreases rest@.len(),
    {
        let ghost rest0 = rest@;
        let ghost t = out@.len() as int;
        let x = rest.remove(0);
        assert(rest0.remove(0) == rest@);
        assert(x == input[t]);
        assert(rest@ =~= input.subrange(t + 1, input.len() as int));
        let mut p: usize = 0;
        while p < out.len() && port_le_exec(&out[p], &x)
            invariant
                p <= out@.len(),
                forall|k: int| 0 <= k < p ==> port_le(#[trigger] out@[k], x),
            decreases out@.len() - p,
        {
            p = p + 1;
        }
        let ghost s = out@;
        let ghost old_perm = perm;
        out.insert(p, x);
        proof {
            perm = old_perm.insert(p as int, t);
            if p < s.len() {
                lemma_port_total(s[p as int], x);
            }
            assert forall|j: int| p < j < out@.len() implies !port_le(#[trigger] out@[j], x) by {
                if port_le(out@[j], x) {
                    lemma_port_refl(s[p as int]);
                    assert(port_le(s[p as int], s[j - 1]));
                    lemma_port_trans(s[p as int], s[j - 1], x);
                }
            }
            assert forall|i: int, j: int| 0 <= i < j < out@.len() implies port_le(
                #[trigger] out@[i],
                #[trigger] out@[j],
            ) by {
                if j == p {
                } else if i == p {
                    lemma_port_refl(s[p as int]);
                    assert(port_le(s[p as int], s[j - 1]));
                    lemma_port_trans(x, s[p as int], s[j - 1]);
                } else if i < p && j > p {
                    assert(port_le(s[i], s[j - 1]));
                } else if j < p {
                    assert(port_le(s[i], s[j]));
                } else {
                    assert(port_le(s[i - 1], s[j - 1]));
                }
            }
            assert forall|k: int| 0 <= k < perm.len() implies 0 <= #[trigger] perm[k] < out@.len() by {
                if k < p {
                    assert(perm[k] == old_perm[k]);
                } else if k > p {
                    assert(perm[k] == old_perm[k - 1]);
                }
            }
            assert forall|k: int| 0 <= k < perm.len() implies #[trigger] out@[k] == input[perm[k]] by {
                if k < p {
                    assert(perm[k] == old_perm[k]);
                } else if k > p {
                    assert(perm[k] == old_perm[k - 1]);
                }
            }
            assert forall|k1: int, k2: int| 0 <= k1 < k2 < perm.len() implies #[trigger] perm[k1]
                != #[trigger] perm[k2] by {
                if k1 != p && k2 != p {
                    let o1 = if k1 < p { k1 } else { k1 - 1 };
                    let o2 = if k2 < p { k2 } else { k2 - 1 };
                    assert(perm[k1] == old_perm[o1]);
                    assert(perm[k2] == old_perm[o2]);
                } else if k1 == p {
                    assert(perm[k2] == old_perm[k2 - 1]);
                } else {
                    assert(perm[k1] == old_perm[k1]);
                }
            }
            assert forall|k1: int, k2: int|
                0 <= k1 < k2 < perm.len() && port_le(#[trigger] out@[k2], #[trigger] out@[k1]) implies perm[k1]
                < perm[k2] by {
                if k1 != p && k2 != p {
                    let o1 = if k1 < p { k1 } else { k1 - 1 };
                    let o2 = if k2 < p { k2 } else { k2 - 1 };
                    assert(perm[k1] == old_perm[o1]);
                    assert(perm[k2] == old_perm[o2]);
                    assert(out@[k1] == s[o1]);
                    assert(out@[k2] == s[o2]);
                } else if k1 == p {
                    assert(!port_le(out@[k2], x));
                } else {
                    assert(perm[k1] == old_perm[k1]);
                }
            }
        }
    }
    assert(stable_perm(input, out@, perm));
    out
}

} // verus!
