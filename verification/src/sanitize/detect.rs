//! Stage 1: detection of sensitive data.
//!
//! Walks a JSON-shaped value and reports every string that looks like a
//! social security number, a card number (by digit count and Luhn
//! checksum) or an email address, together with the path it sits at.

use vstd::prelude::*;
use vstd::string::{StrSliceExecFns, StringExecFns, StringSliceAdditionalSpecFns};
use vstd::utf8::encode_utf8;
use crate::encoding::{dec_of, u64_to_dec};
use crate::json::{entry_views_of, views_of, JsonValue, JsonView};
use crate::sanitize::{det_view, det_views, DataType, Detection, DetectionView, Regulation};

verus! {

broadcast use vstd::seq::axiom_seq_index_decreases, vstd::std_specs::vec::axiom_vec_index_decreases, vstd::std_specs::vec::axiom_vec_decreases_to_view, crate::json::lemma_views_of, crate::json::lemma_entry_views_of;

/// An ASCII decimal digit.
pub open spec fn is_digit_byte(b: u8) -> bool {
    48 <= b <= 57
}

/// The shape of a social security number: three, two and four digits
/// separated by dashes.
pub open spec fn is_ssn_shape(s: Seq<u8>) -> bool {
    &&& s.len() == 11
    &&& s[3] == 45
    &&& s[6] == 45
    &&& forall|i: int|
        0 <= i < 11 && i != 3 && i != 6 ==> is_digit_byte(#[trigger] s[i])
}

/// The digit bytes of a byte sequence, in order.
pub open spec fn digit_bytes(s: Seq<u8>) -> Seq<u8>
    decreases s.len(),
{
    if s.len() == 0 {
        Seq::empty()
    } else if is_digit_byte(s.last()) {
        digit_bytes(s.drop_last()) + seq![s.last()]
    } else {
        digit_bytes(s.drop_last())
    }
}

/// A doubled Luhn digit, with the excess folded back.
pub open spec fn luhn_double(d: int) -> int {
    if 2 * d > 9 {
        2 * d - 9
    } else {
        2 * d
    }
}

/// The Luhn sum of digit bytes, processed from the rightmost digit with
/// the given doubling phase.
pub open spec fn luhn_sum(digits: Seq<u8>, double: bool) -> int
    decreases digits.len(),
{
    if digits.len() == 0 {
        0
    } else {
        let d = digits.last() as int - 48;
        (if double {
            luhn_double(d)
        } else {
            d
        }) + luhn_sum(digits.drop_last(), !double)
    }
}

/// The digit string passes the Luhn checksum.
pub open spec fn luhn_valid(digits: Seq<u8>) -> bool {
    luhn_sum(digits, false) % 10 == 0
}

/// The loose email shape: an at sign, a dot, and more than five bytes.
pub open spec fn looks_like_email(s: Seq<u8>) -> bool {
    &&& exists|i: int| 0 <= i < s.len() && s[i] == 64
    &&& exists|i: int| 0 <= i < s.len() && s[i] == 46
    &&& s.len() > 5
}

/// What one string value at a path is detected as: an SSN shape first,
/// then a card number (13 to 19 digits passing Luhn), then an email.
pub open spec fn spec_detect_pii(path: Seq<char>, bytes: Seq<u8>) -> Option<DetectionView> {
    if is_ssn_shape(bytes) {
        Some(
            DetectionView {
                field_path: path,
                data_type: DataType::Ssn,
                regulation: seq![Regulation::Hipaa, Regulation::Gdpr],
                confidence: 95,
            },
        )
    } else if 13 <= digit_bytes(bytes).len() <= 19 && luhn_valid(digit_bytes(bytes)) {
        Some(
            DetectionView {
                field_path: path,
                data_type: DataType::CreditCard,
                regulation: seq![Regulation::PciDss],
                confidence: 98,
            },
        )
    } else if looks_like_email(bytes) {
        Some(
            DetectionView {
                field_path: path,
                data_type: DataType::Email,
                regulation: seq![Regulation::Gdpr],
                confidence: 90,
            },
        )
    } else {
        None
    }
}

/// Every detection in a value, depth first: a string is checked at its
/// own path, and containers are walked in order.
pub open spec fn spec_scan(v: JsonView, path: Seq<char>) -> Seq<DetectionView>
    decreases v, 0int,
    via spec_scan_decreases
{
    match v {
        JsonView::Str(s) => match spec_detect_pii(path, encode_utf8(s)) {
            Some(d) => seq![d],
            None => Seq::empty(),
        },
        JsonView::Object(entries) => spec_scan_entries(entries, path, 0),
        JsonView::Array(items) => spec_scan_items(items, path, 0),
        _ => Seq::empty(),
    }
}

/// Detections in an object's entries from position `idx` on; a child at
/// key `k` under path `p` sits at `p.k`, or plain `k` at the root.
pub open spec fn spec_scan_entries(
    entries: Seq<(Seq<char>, JsonView)>,
    path: Seq<char>,
    idx: int,
) -> Seq<DetectionView>
    decreases entries, entries.len() - idx,
    via spec_scan_entries_decreases
{
    if idx < 0 || idx >= entries.len() {
        Seq::empty()
    } else {
        let child_path = if path.len() == 0 {
            entries[idx].0
        } else {
            path + "."@ + entries[idx].0
        };
        spec_scan(entries[idx].1, child_path) + spec_scan_entries(entries, path, idx + 1)
    }
}

/// Detections in an array's items from position `idx` on; the item at
/// index `i` under path `p` sits at `p[i]`.
pub open spec fn spec_scan_items(items: Seq<JsonView>, path: Seq<char>, idx: int) -> Seq<
    DetectionView,
>
    decreases items, items.len() - idx,
    via spec_scan_items_decreases
{
    if idx < 0 || idx >= items.len() {
        Seq::empty()
    } else {
        let child_path = path + "["@ + dec_of(idx as nat) + "]"@;
        spec_scan(items[idx], child_path) + spec_scan_items(items, path, idx + 1)
    }
}

#[via_fn]
proof fn spec_scan_decreases(v: JsonView, path: Seq<char>) {
    match v {
        JsonView::Object(entries) => {
            assert(decreases_to!(v => entries));
        },
        JsonView::Array(items) => {
            assert(decreases_to!(v => items));
        },
        _ => {},
    }
}

#[via_fn]
proof fn spec_scan_entries_decreases(entries: Seq<(Seq<char>, JsonView)>, path: Seq<char>,
    idx: int) {
    if 0 <= idx < entries.len() {
        assert(decreases_to!(entries => entries[idx]));
        assert(decreases_to!(entries[idx] => entries[idx].1));
    }
}

#[via_fn]
proof fn spec_scan_items_decreases(items: Seq<JsonView>, path: Seq<char>, idx: int) {
    if 0 <= idx < items.len() {
        assert(decreases_to!(items => items[idx]));
    }
}

/// Scan a value for sensitive data, reporting each finding with its path.
pub fn scan(input: &JsonValue) -> (r: Vec<Detection>)
    ensures
        det_views(r@) == spec_scan(input@, Seq::<char>::empty()),
{
    let mut detections: Vec<Detection> = Vec::new();
    scan_recursive(input, "", &mut detections);
    proof {
        reveal_strlit("");
        assert(""@ =~= Seq::<char>::empty());
        assert(det_views(Seq::<Detection>::empty() + detections@) =~= det_views(detections@));
    }
    detections
}

/// Walk one value, appending every detection under it to the list.
#[verifier::loop_isolation(false)]
fn scan_recursive(value: &JsonValue, path: &str, detections: &mut Vec<Detection>)
    ensures
        det_views(final(detections)@) == det_views(old(detections)@) + spec_scan(
            value@,
            path@,
        ),
    decreases value,
{
    match value {
        JsonValue::Str(s) => {
            match detect_pii(path, s.as_str()) {
                Some(d) => {
                    detections.push(d);
                    proof {
                        assert(det_views(detections@) =~= det_views(old(detections)@)
                            + spec_scan(value@, path@));
                    }
                },
                None => {
                    proof {
                        assert(det_views(detections@) =~= det_views(old(detections)@)
                            + spec_scan(value@, path@));
                    }
                },
            }
        },
        JsonValue::Object(entries) => {
            let ghost ves = entry_views_of(entries@);
            let n = entries.len();
            let mut i: usize = 0;
            while i < n
                invariant
                    i <= n,
                    det_views(old(detections)@) + spec_scan_entries(ves, path@, 0)
                        == det_views(detections@) + spec_scan_entries(ves, path@, i as int),
                decreases n - i,
            {
                let child_path: String = if path.is_empty() {
                    entries[i].0.clone()
                } else {
                    let mut c = path.to_owned();
                    c.append(".");
                    c.append(entries[i].0.as_str());
                    c
                };
                proof {
                    assert(decreases_to!(*value => *entries));
                    assert(decreases_to!(*entries => entries@));
                    assert(decreases_to!(entries@ => entries@[i as int]));
                    assert(decreases_to!(entries@[i as int] => entries@[i as int].1));
                }
                let ghost mid = detections@;
                scan_recursive(&entries[i].1, child_path.as_str(), detections);
                proof {
                    assert(det_views(mid) + spec_scan(ves[i as int].1, child_path@)
                        =~= det_views(detections@));
                    assert(det_views(detections@) + spec_scan_entries(ves, path@, i as int + 1)
                        =~= det_views(mid) + spec_scan_entries(ves, path@, i as int));
                }
                i += 1;
            }
        },
        JsonValue::Array(items) => {
            let ghost vs = views_of(items@);
            let n = items.len();
            let mut i: usize = 0;
            while i < n
                invariant
                    i <= n,
                    det_views(old(detections)@) + spec_scan_items(vs, path@, 0) == det_views(
                        detections@,
                    ) + spec_scan_items(vs, path@, i as int),
                decreases n - i,
            {
                let mut child_path = path.to_owned();
                child_path.append("[");
                let idx_dec = u64_to_dec(i as u64);
                child_path.append(idx_dec.as_str());
                child_path.append("]");
                proof {
                    assert(decreases_to!(*value => *items));
                    assert(decreases_to!(*items => items@));
                    assert(decreases_to!(items@ => items@[i as int]));
                }
                let ghost mid = detections@;
                scan_recursive(&items[i], child_path.as_str(), detections);
                proof {
                    assert(det_views(mid) + spec_scan(vs[i as int], child_path@) =~= det_views(
                        detections@,
                    ));
                    assert(det_views(detections@) + spec_scan_items(vs, path@, i as int + 1)
                        =~= det_views(mid) + spec_scan_items(vs, path@, i as int));
                }
                i += 1;
            }
        },
        _ => {
            proof {
                assert(det_views(detections@) =~= det_views(old(detections)@) + spec_scan(
                    value@,
                    path@,
                ));
            }
        },
    }
}

/// Check one string value for the detectable patterns.
#[verifier::loop_isolation(false)]
fn detect_pii(path: &str, value: &str) -> (r: Option<Detection>)
    ensures
        match r {
            Some(d) => Some(det_view(d)) == spec_detect_pii(path@, value.spec_bytes()),
            None => spec_detect_pii(path@, value.spec_bytes()) is None,
        },
{
    let bytes = value.as_bytes();
    // SSN pattern: three, two and four digits separated by dashes.
    if bytes.len() == 11 && bytes[3] == 45 && bytes[6] == 45 {
        let mut all_digits = true;
        let mut i: usize = 0;
        while i < 11
            invariant
                i <= 11,
                bytes@.len() == 11,
                all_digits <==> forall|j: int|
                    0 <= j < i && j != 3 && j != 6 ==> is_digit_byte(#[trigger] bytes@[j]),
            decreases 11 - i,
        {
            if i != 3 && i != 6 && !(48 <= bytes[i] && bytes[i] <= 57) {
                all_digits = false;
            }
            i += 1;
        }
        if all_digits {
            let mut regulation: Vec<Regulation> = Vec::new();
            regulation.push(Regulation::Hipaa);
            regulation.push(Regulation::Gdpr);
            proof {
                assert(regulation@ =~= seq![Regulation::Hipaa, Regulation::Gdpr]);
            }
            return Some(
                Detection {
                    field_path: path.to_owned(),
                    data_type: DataType::Ssn,
                    regulation,
                    confidence: 95,
                },
            );
        }
    }
    // Card pattern: 13 to 19 digits, in any decoration, passing Luhn.
    let n = bytes.len();
    let mut digits: Vec<u8> = Vec::new();
    let mut i: usize = 0;
    proof {
        assert(digit_bytes(bytes@.take(0)) =~= Seq::<u8>::empty());
    }
    while i < n
        invariant
            i <= n,
            digits@ == digit_bytes(bytes@.take(i as int)),
        decreases n - i,
    {
        let b = bytes[i];
        proof {
            assert(bytes@.take(i as int + 1).drop_last() =~= bytes@.take(i as int));
            assert(bytes@.take(i as int + 1).last() == bytes@[i as int]);
        }
        if 48 <= b && b <= 57 {
            digits.push(b);
        }
        i += 1;
    }
    proof {
        assert(bytes@.take(n as int) =~= bytes@);
    }
    if 13 <= digits.len() && digits.len() <= 19 {
        proof {
            assert(forall|j: int|
                0 <= j < digits@.len() ==> is_digit_byte(#[trigger] digits@[j])) by {
                lemma_digit_bytes_digits(bytes@);
            }
        }
        if luhn_check(digits.as_slice()) {
            let mut regulation: Vec<Regulation> = Vec::new();
            regulation.push(Regulation::PciDss);
            proof {
                assert(regulation@ =~= seq![Regulation::PciDss]);
            }
            return Some(
                Detection {
                    field_path: path.to_owned(),
                    data_type: DataType::CreditCard,
                    regulation,
                    confidence: 98,
                },
            );
        }
    }
    // Email pattern: an at sign, a dot, more than five bytes.
    let mut has_at = false;
    let mut has_dot = false;
    let mut i: usize = 0;
    while i < n
        invariant
            i <= n,
            n == bytes@.len(),
            has_at <==> exists|j: int| 0 <= j < i && bytes@[j] == 64,
            has_dot <==> exists|j: int| 0 <= j < i && bytes@[j] == 46,
        decreases n - i,
    {
        if bytes[i] == 64 {
            has_at = true;
        }
        if bytes[i] == 46 {
            has_dot = true;
        }
        i += 1;
    }
    if has_at && has_dot && n > 5 {
        let mut regulation: Vec<Regulation> = Vec::new();
        regulation.push(Regulation::Gdpr);
        proof {
            assert(regulation@ =~= seq![Regulation::Gdpr]);
        }
        return Some(
            Detection {
                field_path: path.to_owned(),
                data_type: DataType::Email,
                regulation,
                confidence: 90,
            },
        );
    }
    None
}

/// Every byte the digit filter keeps is a digit.
proof fn lemma_digit_bytes_digits(s: Seq<u8>)
    ensures
        forall|j: int|
            0 <= j < digit_bytes(s).len() ==> is_digit_byte(#[trigger] digit_bytes(s)[j]),
    decreases s.len(),
{
    if s.len() > 0 {
        lemma_digit_bytes_digits(s.drop_last());
        assert forall|j: int|
            0 <= j < digit_bytes(s).len() implies is_digit_byte(digit_bytes(s)[j]) by {
            if is_digit_byte(s.last()) {
                assert(digit_bytes(s) == digit_bytes(s.drop_last()) + seq![s.last()]);
                if j < digit_bytes(s.drop_last()).len() {
                    assert(digit_bytes(s)[j] == digit_bytes(s.drop_last())[j]);
                } else {
                    assert(digit_bytes(s)[j] == s.last());
                }
            } else {
                assert(digit_bytes(s) == digit_bytes(s.drop_last()));
            }
        }
    }
}

/// Run the Luhn checksum over digit bytes, rightmost digit first.
#[verifier::loop_isolation(false)]
fn luhn_check(digits: &[u8]) -> (r: bool)
    requires
        digits@.len() <= 19,
        forall|i: int| 0 <= i < digits@.len() ==> is_digit_byte(#[trigger] digits@[i]),
    ensures
        r == luhn_valid(digits@),
{
    let n = digits.len();
    let mut sum: u32 = 0;
    let mut double = false;
    let mut i: usize = n;
    proof {
        assert(digits@.take(n as int) =~= digits@);
    }
    while i > 0
        invariant
            i <= n,
            sum <= 18 * (n - i),
            luhn_sum(digits@, false) == sum + luhn_sum(digits@.take(i as int), double),
        decreases i,
    {
        i -= 1;
        proof {
            assert(digits@.take(i as int + 1).drop_last() =~= digits@.take(i as int));
            assert(digits@.take(i as int + 1).last() == digits@[i as int]);
        }
        let d = (digits[i] - 48) as u32;
        let doubled = if double {
            if 2 * d > 9 {
                2 * d - 9
            } else {
                2 * d
            }
        } else {
            d
        };
        sum = sum + doubled;
        double = !double;
    }
    proof {
        assert(digits@.take(0) =~= Seq::<u8>::empty());
    }
    sum % 10 == 0
}

} // verus!
