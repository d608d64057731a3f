//! Stage 2: value transform.
//!
//! Replaces each detected sensitive value with a safe placeholder for its
//! data type, walking to the detection's field path through nested objects.

use vstd::prelude::*;
use vstd::string::{StrSliceExecFns, StringExecFns};
use crate::json::{
    entry_views_of, lemma_obj_get_absent, lemma_obj_get_at, lemma_obj_put_at, obj_get,
    obj_put, JsonValue, JsonView,
};
use crate::sanitize::{DataType, Detection, DetectionView};

verus! {

broadcast use crate::json::lemma_entry_views_of;

/// An ASCII letter folded to upper case; anything else unchanged.
pub open spec fn ascii_upper_char(c: char) -> char {
    if c == 'a' {
        'A'
    } else if c == 'b' {
        'B'
    } else if c == 'c' {
        'C'
    } else if c == 'd' {
        'D'
    } else if c == 'e' {
        'E'
    } else if c == 'f' {
        'F'
    } else if c == 'g' {
        'G'
    } else if c == 'h' {
        'H'
    } else if c == 'i' {
        'I'
    } else if c == 'j' {
        'J'
    } else if c == 'k' {
        'K'
    } else if c == 'l' {
        'L'
    } else if c == 'm' {
        'M'
    } else if c == 'n' {
        'N'
    } else if c == 'o' {
        'O'
    } else if c == 'p' {
        'P'
    } else if c == 'q' {
        'Q'
    } else if c == 'r' {
        'R'
    } else if c == 's' {
        'S'
    } else if c == 't' {
        'T'
    } else if c == 'u' {
        'U'
    } else if c == 'v' {
        'V'
    } else if c == 'w' {
        'W'
    } else if c == 'x' {
        'X'
    } else if c == 'y' {
        'Y'
    } else if c == 'z' {
        'Z'
    } else {
        c
    }
}

/// ASCII upper-casing of a character sequence.
pub open spec fn upper_chars(s: Seq<char>) -> Seq<char> {
    Seq::new(s.len(), |i: int| ascii_upper_char(s[i]))
}

/// The placeholder a data type is redacted to.
pub open spec fn placeholder_view(dt: DataType) -> Seq<char> {
    match dt {
        DataType::Ssn => "[PII_SSN]"@,
        DataType::CreditCard => "[PCI_PAN]"@,
        DataType::PersonalName => "[PII_NAME]"@,
        DataType::Email => "[PII_EMAIL]"@,
        DataType::PhoneNumber => "[PII_PHONE]"@,
        DataType::DateOfBirth => "[PII_DOB]"@,
        DataType::Address => "[PII_ADDRESS]"@,
        DataType::MedicalRecord => "[HIPAA_MEDICAL]"@,
        DataType::FinancialAccount => "[PII_FINANCIAL]"@,
        DataType::BiometricData => "[PII_BIOMETRIC]"@,
        DataType::Custom(name) => "[PII_"@ + upper_chars(name@) + "]"@,
    }
}

/// The position of the first dot, or the length when there is none.
pub open spec fn first_dot(s: Seq<char>) -> int
    decreases s.len(),
{
    if s.len() == 0 {
        0
    } else if s[0] == '.' {
        0
    } else {
        1 + first_dot(s.skip(1))
    }
}

/// The dot-separated parts of a path; splitting keeps empty parts, and the
/// empty path is the single empty part.
pub open spec fn split_dots_view(s: Seq<char>) -> Seq<Seq<char>>
    decreases s.len(),
    via split_dots_view_decreases
{
    let d = first_dot(s);
    if d >= s.len() {
        seq![s]
    } else {
        seq![s.take(d)] + split_dots_view(s.skip(d + 1))
    }
}

#[via_fn]
proof fn split_dots_view_decreases(s: Seq<char>) {
    lemma_first_dot(s);
}

/// The first dot really is the first, and within bounds.
pub proof fn lemma_first_dot(s: Seq<char>)
    ensures
        0 <= first_dot(s) <= s.len(),
        first_dot(s) < s.len() ==> s[first_dot(s)] == '.',
        forall|j: int| 0 <= j < first_dot(s) ==> s[j] != '.',
    decreases s.len(),
{
    if s.len() > 0 && s[0] != '.' {
        lemma_first_dot(s.skip(1));
        assert forall|j: int| 0 <= j < first_dot(s) implies s[j] != '.' by {
            if j > 0 {
                assert(s.skip(1)[j - 1] == s[j]);
            }
        }
    }
}

/// Conversely, a position with a dot and none before it is the first dot.
pub proof fn lemma_first_dot_at(s: Seq<char>, i: int)
    requires
        0 <= i <= s.len(),
        i < s.len() ==> s[i] == '.',
        forall|j: int| 0 <= j < i ==> s[j] != '.',
    ensures
        first_dot(s) == i,
    decreases i,
{
    if i > 0 {
        assert(forall|j: int| 0 <= j < i - 1 ==> s.skip(1)[j] != '.');
        lemma_first_dot_at(s.skip(1), i - 1);
    }
}

/// What writing a replacement at a path leaves of a value: descend through
/// object entries along the parts; the final part's binding is written
/// into its object, and a missing step or a non-object leaves the value
/// untouched.
pub open spec fn spec_set_at_parts(
    v: JsonView,
    parts: Seq<Seq<char>>,
    i: int,
    replacement: JsonView,
) -> JsonView
    decreases parts.len() - i,
{
    if i < 0 || i >= parts.len() {
        v
    } else if i == parts.len() - 1 {
        match v {
            JsonView::Object(entries) => JsonView::Object(
                obj_put(entries, parts[i], replacement),
            ),
            _ => v,
        }
    } else {
        match v {
            JsonView::Object(entries) => match obj_get(entries, parts[i]) {
                Some(child) => JsonView::Object(
                    obj_put(
                        entries,
                        parts[i],
                        spec_set_at_parts(child, parts, i + 1, replacement),
                    ),
                ),
                None => v,
            },
            _ => v,
        }
    }
}

/// A value with every detection's path replaced by its placeholder, in
/// detection order.
pub open spec fn spec_redact(v: JsonView, dets: Seq<DetectionView>, i: int) -> JsonView
    decreases dets.len() - i,
{
    if i < 0 || i >= dets.len() {
        v
    } else {
        let redacted = spec_set_at_parts(
            v,
            split_dots_view(dets[i].field_path),
            0,
            JsonView::Str(placeholder_view(dets[i].data_type)),
        );
        spec_redact(redacted, dets, i + 1)
    }
}

/// The single-character string of an ASCII lower-case letter's upper case.
fn upper_letter_str(c: char) -> (r: &'static str)
    requires
        97 <= c as u32 <= 122,
    ensures
        r@ == seq![ascii_upper_char(c)],
{
    proof {
        reveal_strlit("A");
        reveal_strlit("B");
        reveal_strlit("C");
        reveal_strlit("D");
        reveal_strlit("E");
        reveal_strlit("F");
        reveal_strlit("G");
        reveal_strlit("H");
        reveal_strlit("I");
        reveal_strlit("J");
        reveal_strlit("K");
        reveal_strlit("L");
        reveal_strlit("M");
        reveal_strlit("N");
        reveal_strlit("O");
        reveal_strlit("P");
        reveal_strlit("Q");
        reveal_strlit("R");
        reveal_strlit("S");
        reveal_strlit("T");
        reveal_strlit("U");
        reveal_strlit("V");
        reveal_strlit("W");
        reveal_strlit("X");
        reveal_strlit("Y");
        reveal_strlit("Z");
    }
    match c {
        'a' => "A",
        'b' => "B",
        'c' => "C",
        'd' => "D",
        'e' => "E",
        'f' => "F",
        'g' => "G",
        'h' => "H",
        'i' => "I",
        'j' => "J",
        'k' => "K",
        'l' => "L",
        'm' => "M",
        'n' => "N",
        'o' => "O",
        'p' => "P",
        'q' => "Q",
        'r' => "R",
        's' => "S",
        't' => "T",
        'u' => "U",
        'v' => "V",
        'w' => "W",
        'x' => "X",
        'y' => "Y",
        _ => "Z",
    }
}

/// ASCII upper-casing of a string.
#[verifier::loop_isolation(false)]
fn ascii_upper(s: &str) -> (r: String)
    ensures
        r@ == upper_chars(s@),
{
    let n = s.unicode_len();
    let mut out = String::new();
    let mut i: usize = 0;
    while i < n
        invariant
            i <= n,
            n == s@.len(),
            out@.len() == i,
            forall|j: int| 0 <= j < i ==> out@[j] == ascii_upper_char(s@[j]),
        decreases n - i,
    {
        let c = s.get_char(i);
        let u = c as u32;
        if 97 <= u && u <= 122 {
            out.append(upper_letter_str(c));
        } else {
            let piece = s.substring_char(i, i + 1);
            proof {
                assert(piece@ =~= seq![s@[i as int]]);
                assert(ascii_upper_char(s@[i as int]) == s@[i as int]);
            }
            out.append(piece);
        }
        i += 1;
    }
    proof {
        assert(out@ =~= upper_chars(s@));
    }
    out
}

/// The safe placeholder for a data type.
fn placeholder_for(data_type: &DataType) -> (r: String)
    ensures
        r@ == placeholder_view(*data_type),
{
    match data_type {
        DataType::Ssn => "[PII_SSN]".to_owned(),
        DataType::CreditCard => "[PCI_PAN]".to_owned(),
        DataType::PersonalName => "[PII_NAME]".to_owned(),
        DataType::Email => "[PII_EMAIL]".to_owned(),
        DataType::PhoneNumber => "[PII_PHONE]".to_owned(),
        DataType::DateOfBirth => "[PII_DOB]".to_owned(),
        DataType::Address => "[PII_ADDRESS]".to_owned(),
        DataType::MedicalRecord => "[HIPAA_MEDICAL]".to_owned(),
        DataType::FinancialAccount => "[PII_FINANCIAL]".to_owned(),
        DataType::BiometricData => "[PII_BIOMETRIC]".to_owned(),
        DataType::Custom(name) => {
            let mut out = "[PII_".to_owned();
            let upper = ascii_upper(name.as_str());
            out.append(upper.as_str());
            out.append("]");
            out
        },
    }
}

/// The dot-separated parts of a path.
fn split_dots(s: &str) -> (r: Vec<String>)
    ensures
        r@.len() == split_dots_view(s@).len(),
        forall|i: int| 0 <= i < r@.len() ==> r@[i]@ == split_dots_view(s@)[i],
        r@.len() >= 1,
    decreases s@.len(),
{
    let n = s.unicode_len();
    let mut i: usize = 0;
    let mut found = false;
    while !found && i < n
        invariant
            i <= n,
            n == s@.len(),
            forall|j: int| 0 <= j < i ==> s@[j] != '.',
            found ==> i < n && s@[i as int] == '.',
        decreases n - i + (if found { 0int } else { 1int }),
    {
        if s.get_char(i) == '.' {
            found = true;
        } else {
            i += 1;
        }
    }
    proof {
        lemma_first_dot_at(s@, i as int);
    }
    if i == n {
        let mut r: Vec<String> = Vec::new();
        r.push(s.to_owned());
        r
    } else {
        let head = s.substring_char(0, i);
        let tail = s.substring_char(i + 1, n);
        proof {
            assert(head@ =~= s@.take(i as int));
            assert(tail@ =~= s@.skip(i as int + 1));
        }
        let mut r = split_dots(tail);
        r.insert(0, head.to_owned());
        proof {
            assert(forall|k: int|
                0 <= k < r@.len() ==> r@[k]@ == split_dots_view(s@)[k]) by {
                assert(split_dots_view(s@) == seq![s@.take(i as int)] + split_dots_view(
                    s@.skip(i as int + 1),
                ));
            }
        }
        r
    }
}

/// Write the replacement at the path from part `i` on, handing the value
/// through unchanged where the path does not lead to an object binding.
#[verifier::loop_isolation(false)]
fn set_at_parts(v: JsonValue, parts: &[String], i: usize, replacement: JsonValue) -> (r:
    JsonValue)
    requires
        i < parts@.len(),
    ensures
        r@ == spec_set_at_parts(
            v@,
            Seq::new(parts@.len(), |k: int| parts@[k]@),
            i as int,
            replacement@,
        ),
    decreases parts@.len() - i,
{
    let ghost pviews = Seq::new(parts@.len(), |k: int| parts@[k]@);
    if i == parts.len() - 1 {
        match v {
            JsonValue::Object(entries) => {
                let mut obj = JsonValue::Object(entries);
                obj.set_field(parts[i].as_str(), replacement);
                obj
            },
            other => other,
        }
    } else {
        match v {
            JsonValue::Object(mut entries) => {
                let ghost es0 = entries@;
                let ghost ves = entry_views_of(es0);
                let n = entries.len();
                let mut j: usize = 0;
                while j < n
                    invariant
                        j <= n,
                        n == es0.len(),
                        entries@ == es0,
                        forall|a: int| 0 <= a < j ==> es0[a].0@ != parts@[i as int]@,
                    decreases n - j,
                {
                    if entries[j].0 == parts[i] {
                        proof {
                            assert(forall|a: int| 0 <= a < j ==> ves[a].0 != pviews[i as int]);
                            assert(ves[j as int].0 == pviews[i as int]);
                            lemma_obj_get_at(ves, j as int, pviews[i as int]);
                        }
                        let entry = entries.remove(j);
                        let new_child = set_at_parts(entry.1, parts, i + 1, replacement);
                        entries.insert(j, (entry.0, new_child));
                        proof {
                            assert(entries@ =~= es0.update(
                                j as int,
                                (es0[j as int].0, entries@[j as int].1),
                            ));
                            lemma_obj_put_at(
                                ves,
                                j as int,
                                pviews[i as int],
                                entries@[j as int].1@,
                            );
                            assert(entry_views_of(entries@) =~= ves.update(
                                j as int,
                                (pviews[i as int], entries@[j as int].1@),
                            ));
                        }
                        return JsonValue::Object(entries);
                    }
                    j += 1;
                }
                proof {
                    assert(forall|a: int| 0 <= a < ves.len() ==> ves[a].0 != pviews[
                        i as int
                    ]);
                    lemma_obj_get_absent(ves, pviews[i as int]);
                }
                JsonValue::Object(entries)
            },
            other => other,
        }
    }
}

/// Write the replacement at a dot-separated path inside the value, leaving
/// it untouched where the path does not lead to an object binding.
pub fn set_at_path(value: &mut JsonValue, path: &str, replacement: JsonValue)
    ensures
        final(value)@ == spec_set_at_parts(
            old(value)@,
            split_dots_view(path@),
            0,
            replacement@,
        ),
{
    let parts = split_dots(path);
    let mut taken = JsonValue::Null;
    core::mem::swap(&mut taken, value);
    let ghost pviews = Seq::new(parts@.len(), |k: int| parts@[k]@);
    let mut updated = set_at_parts(taken, parts.as_slice(), 0, replacement);
    proof {
        assert(pviews =~= split_dots_view(path@));
    }
    core::mem::swap(&mut updated, value);
}

/// Replace every detected value with its placeholder.
#[verifier::loop_isolation(false)]
pub fn redact(input: &JsonValue, detections: &[Detection]) -> (r: JsonValue)
    ensures
        r@ == spec_redact(input@, crate::sanitize::det_views(detections@), 0),
{
    let ghost dviews = crate::sanitize::det_views(detections@);
    let mut output = input.clone();
    let n = detections.len();
    let mut i: usize = 0;
    while i < n
        invariant
            i <= n,
            n == dviews.len(),
            spec_redact(input@, dviews, 0) == spec_redact(output@, dviews, i as int),
        decreases n - i,
    {
        let placeholder = placeholder_for(&detections[i].data_type);
        set_at_path(
            &mut output,
            detections[i].field_path.as_str(),
            JsonValue::Str(placeholder),
        );
        i += 1;
    }
    output
}

} // verus!
