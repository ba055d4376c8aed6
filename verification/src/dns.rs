use vstd::prelude::*;

verus! {

/// A byte that may stand in a DNS label besides a hyphen: an ASCII letter, a
/// digit, or an underscore.
pub open spec fn is_letterish_byte(c: u8) -> bool {
    (97u8 <= c && c <= 122u8) || (65u8 <= c && c <= 90u8) || c == 95u8
}

/// An ASCII digit.
pub open spec fn is_digit_byte(c: u8) -> bool {
    48u8 <= c && c <= 57u8
}

/// A byte allowed anywhere inside a DNS label.
pub open spec fn is_label_byte(c: u8) -> bool {
    is_letterish_byte(c) || is_digit_byte(c) || c == 45u8
}

/// The name with a single trailing dot removed, if it has one: a fully
/// qualified form is judged by the same labels as the unqualified one.
pub open spec fn trimmed(s: Seq<u8>) -> Seq<u8> {
    if s.len() > 0 && s.last() == 46u8 {
        s.drop_last()
    } else {
        s
    }
}

///`[i, j)` is one complete label of `t`: it is bounded by dots (or the ends
/// of the name) and contains none.
pub open spec fn is_label_span(t: Seq<u8>, i: int, j: int) -> bool {
    &&& 0 <= i <= j <= t.len()
    &&& (i == 0 || t[i - 1] == 46u8)
    &&& (j == t.len() || t[j] == 46u8)
    &&& forall|m: int| i <= m < j ==> t[m] != 46u8
}

/// A label is valid when it has 1 to 63 bytes, each a letter, digit,
/// underscore or hyphen, and neither starts nor ends with a hyphen.
pub open spec fn valid_label(t: Seq<u8>, i: int, j: int) -> bool {
    &&& 1 <= j - i <= 63
    &&& (forall|m: int| i <= m < j ==> is_label_byte(t[m]))
    &&& t[i] != 45u8
    &&& t[j - 1] != 45u8
}

/// Every byte of `[i, j)` is a digit.
pub open spec fn all_numeric(t: Seq<u8>, i: int, j: int) -> bool {
    forall|m: int| i <= m < j ==> is_digit_byte(t[m])
}

/// Syntactic validity of a DNS name, stated over its labels: the whole name
/// has 1 to 253 bytes; after removing at most one trailing dot at least one
/// byte remains; every label is valid; and the final label is not all-numeric,
/// so the name cannot be confused with an IPv4 address.
pub open spec fn is_valid_dns_name(s: Seq<u8>) -> bool {
    &&& 1 <= s.len() <= 253
    &&& trimmed(s).len() >= 1
    &&& (forall|i: int, j: int| #[trigger] is_label_span(trimmed(s), i, j) ==> valid_label(trimmed(s), i, j))
    &&& (forall|i: int| is_label_span(trimmed(s), i, trimmed(s).len() as int) ==> !all_numeric(
        trimmed(s),
        i,
        trimmed(s).len() as int,
    ))
}

/// Decide syntactic DNS-name validity of `host`, in one pass and with no side
/// effect of any kind: this is the check a connection attempt makes before it
/// touches either external endpoint.
pub fn validate_dns_name(host: &Vec<u8>) -> (b: bool)
    ensures
        b == is_valid_dns_name(host@),
{
    let n = host.len();
    if n == 0 || n > 253 {
        return false;
    }
    let tlen = if host[n - 1] == 46u8 {
        n - 1
    } else {
        n
    };
    let ghost t = trimmed(host@);
    proof {
        assert(t =~= host@.take(tlen as int));
    }
    if tlen == 0 {
        return false;
    }
    let mut i: usize = 0;
    let mut start: usize = 0;
    let mut name_ok = true;
    let mut label_ok = true;
    let mut all_num = true;
    while i < tlen
        invariant
            1 <= host@.len() <= 253,
            tlen <= host@.len(),
            t == trimmed(host@),
            t == host@.take(tlen as int),
            t.len() == tlen,
            0 <= start,
            start <= i,
            i <= tlen,
            start == 0 || t[start - 1] == 46u8,
            forall|m: int| start <= m < i ==> t[m] != 46u8,
            name_ok == (forall|i0: int, j0: int|
                #[trigger] is_label_span(t, i0, j0) && j0 < start ==> valid_label(t, i0, j0)),
            label_ok == ((forall|m: int| start <= m < i ==> is_label_byte(t[m])) && (start < i
                ==> t[start as int] != 45u8)),
            all_num == all_numeric(t, start as int, i as int),
        decreases tlen - i,
    {
        let c = host[i];
        if c == 46u8 {
            let len = i - start;
            let good = if len == 0 {
                false
            } else {
                label_ok && len <= 63 && host[i - 1] != 45u8
            };
            proof {
                assert(is_label_span(t, start as int, i as int));
                assert forall|i0: int, j0: int|
                    is_label_span(t, i0, j0) && start <= j0 <= i implies (i0 == start as int && j0
                    == i as int) by {
                    if j0 < i {
                        assert(t[j0] == 46u8);
                        assert(start <= j0 < i);
                    }
                    if i0 < start {
                        assert(start >= 1);
                        assert(t[start - 1] == 46u8);
                        assert(i0 <= start - 1 < j0);
                    }
                    if i0 > start {
                        assert(t[i0 - 1] == 46u8);
                        assert(start <= i0 - 1 < i);
                    }
                }
                if good {
                    assert(valid_label(t, start as int, i as int));
                } else {
                    assert(!valid_label(t, start as int, i as int));
                }
            }
            if !good {
                name_ok = false;
            }
            start = i + 1;
            label_ok = true;
            all_num = true;
            i = i + 1;
            proof {
                assert(name_ok == (forall|i0: int, j0: int|
                    #[trigger] is_label_span(t, i0, j0) && j0 < start ==> valid_label(t, i0, j0)));
                assert(all_numeric(t, start as int, i as int));
            }
        } else {
            let c_is_label = (97u8 <= c && c <= 122u8) || (65u8 <= c && c <= 90u8) || (48u8 <= c
                && c <= 57u8) || c == 95u8 || c == 45u8;
            if !c_is_label {
                label_ok = false;
            }
            if c == 45u8 && i == start {
                label_ok = false;
            }
            if !(48u8 <= c && c <= 57u8) {
                all_num = false;
            }
            i = i + 1;
            proof {
                assert(t[i - 1] == c);
                if label_ok {
                    assert(forall|m: int| start <= m < i ==> is_label_byte(t[m]));
                }
                if all_num {
                    assert(all_numeric(t, start as int, i as int));
                } else {
                    assert(!all_numeric(t, start as int, i as int));
                }
            }
        }
    }
    let flen = tlen - start;
    let fgood = if flen == 0 {
        false
    } else {
        label_ok && flen <= 63 && host[tlen - 1] != 45u8 && !all_num
    };
    proof {
        assert(is_label_span(t, start as int, tlen as int));
        assert forall|i0: int, j0: int|
            is_label_span(t, i0, j0) && start <= j0 implies (i0 == start as int && j0
            == tlen as int) by {
            if j0 < tlen {
                assert(t[j0] == 46u8);
                assert(start <= j0 < tlen);
            }
            if i0 < start {
                assert(start >= 1);
                assert(t[start - 1] == 46u8);
                assert(i0 <= start - 1 < j0);
            }
            if i0 > start {
                assert(t[i0 - 1] == 46u8);
                assert(start <= i0 - 1 < tlen);
            }
        }
        if name_ok && fgood {
            assert(valid_label(t, start as int, tlen as int));
            assert(forall|i0: int, j0: int| #[trigger] is_label_span(t, i0, j0) ==> valid_label(
                t,
                i0,
                j0,
            ));
            assert(is_valid_dns_name(host@));
        }
        if !name_ok {
            assert(!is_valid_dns_name(host@));
        }
        if name_ok && !fgood {
            if flen == 0 {
                assert(!valid_label(t, start as int, tlen as int));
                assert(!is_valid_dns_name(host@));
            } else if !(label_ok && flen <= 63 && t[tlen - 1] != 45u8) {
                assert(!valid_label(t, start as int, tlen as int));
                assert(!is_valid_dns_name(host@));
            } else {
                assert(all_numeric(t, start as int, tlen as int));
                assert(!is_valid_dns_name(host@));
            }
        }
    }
    name_ok && fgood
}

} // verus!
