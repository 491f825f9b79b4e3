//! How an output is called, and the identity it keeps from one run to the next.

use md5::{Digest, Md5};
use vstd::prelude::*;
#[allow(unused_imports)]
use vstd::utf8::encode_utf8;

verus! {

/// The characters that count as white space.
pub open spec fn white_space(c: char) -> bool {
    let code = c as int;
    ||| 0x9 <= code <= 0xd
    ||| code == 0x20
    ||| code == 0x85
    ||| code == 0xa0
    ||| code == 0x1680
    ||| 0x2000 <= code <= 0x200a
    ||| code == 0x2028
    ||| code == 0x2029
    ||| code == 0x202f
    ||| code == 0x205f
    ||| code == 0x3000
}

/// A text without the white space at its ends.
pub open spec fn trimmed(text: Seq<char>) -> Seq<char>
    decreases text.len(),
{
    if text.len() == 0 {
        text
    } else if white_space(text[0]) {
        trimmed(text.drop_first())
    } else if white_space(text.last()) {
        trimmed(text.drop_last())
    } else {
        text
    }
}

/// Trimming a text that was trimmed changes nothing.
pub proof fn trimming_twice_is_trimming_once(text: Seq<char>)
    ensures
        trimmed(trimmed(text)) == trimmed(text),
    decreases text.len(),
{
    if text.len() > 0 {
        if white_space(text[0]) {
            trimming_twice_is_trimming_once(text.drop_first());
        } else if white_space(text.last()) {
            trimming_twice_is_trimming_once(text.drop_last());
        }
    }
}

/// The text that stands for one part of what is known of an output: trimmed, and
/// empty where nothing is known.
pub open spec fn part(value: Option<Seq<char>>) -> Seq<char> {
    match value {
        Some(text) => trimmed(text),
        None => seq![],
    }
}

/// The text behind a reference, where there is one.
pub open spec fn text_of(value: Option<&str>) -> Option<Seq<char>> {
    match value {
        Some(text) => Some(text@),
        None => None,
    }
}

/// A digit as a character.
pub open spec fn digit(value: int) -> char {
    (0x30 + value) as char
}

/// A number in decimal.
pub open spec fn decimal(value: nat) -> Seq<char>
    decreases value,
{
    if value < 10 {
        seq![digit(value as int)]
    } else {
        decimal(value / 10).push(digit((value % 10) as int))
    }
}

/// A hexadecimal digit in lower case.
pub open spec fn hex_digit(value: int) -> char {
    if value < 10 {
        (0x30 + value) as char
    } else {
        (0x57 + value) as char
    }
}

/// Bytes in hexadecimal, two digits each.
pub open spec fn hex(bytes: Seq<u8>) -> Seq<char>
    decreases bytes.len(),
{
    if bytes.len() == 0 {
        seq![]
    } else {
        hex(bytes.drop_last()).push(hex_digit(bytes.last() as int / 16)).push(
            hex_digit(bytes.last() as int % 16),
        )
    }
}

/// What the compositor tells of an output.
#[derive(Clone, Copy, Debug)]
pub struct OutputMetadata<'a> {
    pub name: Option<&'a str>,
    pub description: Option<&'a str>,
    pub make: Option<&'a str>,
    pub model: Option<&'a str>,
}

/// What the compositor tells of an output, over texts.
pub struct Told {
    pub name: Option<Seq<char>>,
    pub description: Option<Seq<char>>,
    pub make: Option<Seq<char>>,
    pub model: Option<Seq<char>>,
}

impl<'a> OutputMetadata<'a> {
    /// What the compositor tells of the output, over texts.
    pub open spec fn told(self) -> Told {
        Told {
            name: text_of(self.name),
            description: text_of(self.description),
            make: text_of(self.make),
            model: text_of(self.model),
        }
    }
}

impl Told {
    /// Whether nothing is known of the output.
    pub open spec fn is_blank(self) -> bool {
        &&& part(self.name).len() == 0
        &&& part(self.description).len() == 0
        &&& part(self.make).len() == 0
        &&& part(self.model).len() == 0
    }
}

/// What tells an output from others: all that is known of it, or its number where
/// nothing is.
pub open spec fn identity_key(told: Told, output: u32) -> Seq<char> {
    if told.is_blank() {
        "global="@ + decimal(output as nat)
    } else {
        "name="@ + part(told.name) + "|description="@ + part(told.description) + "|make="@ + part(
            told.make,
        ) + "|model="@ + part(told.model)
    }
}

/// What an output is called: its name where it has one, else a prefix and its
/// number.
pub open spec fn called(prefix: Seq<char>, name: Option<Seq<char>>, output: u32) -> Seq<char> {
    match name {
        Some(text) if text.len() > 0 => text,
        _ => prefix + "-"@ + decimal(output as nat),
    }
}

/// The MD5 digest of a byte string.
pub uninterp spec fn md5_digest(data: Seq<u8>) -> Seq<u8>;

/// The identity that a digest gives an output.
pub open spec fn instance_id(digest: Seq<u8>) -> Seq<char> {
    "layer-"@ + hex(digest)
}

/// Calls `Md5::digest`. Claimed is that the digest is a function of the bytes
/// alone, under the name `md5_digest`; how it is computed is not stated.
#[verifier::external_body]
fn digest_of(data: &[u8]) -> (digest: [u8; 16])
    ensures
        digest@ == md5_digest(data@),
{
    Md5::digest(data).into()
}

fn is_white_space(c: char) -> (white: bool)
    ensures
        white == white_space(c),
{
    let code: u32 = c as u32;
    (0x9 <= code && code <= 0xd) || code == 0x20 || code == 0x85 || code == 0xa0 || code == 0x1680
        || (0x2000 <= code && code <= 0x200a) || code == 0x2028 || code == 0x2029 || code == 0x202f
        || code == 0x205f || code == 0x3000
}

fn trim(text: &str) -> (result: &str)
    ensures
        result@ == trimmed(text@),
{
    let mut start: usize = 0;
    let mut end: usize = text.unicode_len();
    assert(text@.subrange(0, text@.len() as int) =~= text@);
    while start < end && is_white_space(text.get_char(start))
        invariant
            start <= end <= text@.len(),
            trimmed(text@.subrange(start as int, end as int)) == trimmed(text@),
        decreases end - start,
    {
        assert(text@.subrange(start as int, end as int).drop_first() =~= text@.subrange(
            start + 1,
            end as int,
        ));
        start += 1;
    }
    while start < end && is_white_space(text.get_char(end - 1))
        invariant
            start <= end <= text@.len(),
            start < end ==> !white_space(text@[start as int]),
            trimmed(text@.subrange(start as int, end as int)) == trimmed(text@),
        decreases end - start,
    {
        assert(text@.subrange(start as int, end as int).drop_last() =~= text@.subrange(
            start as int,
            end - 1,
        ));
        end -= 1;
    }
    text.substring_char(start, end)
}

/// One part of what is known of an output, trimmed, and empty where nothing is.
pub fn output_part<'a>(value: Option<&'a str>) -> (text: &'a str)
    ensures
        text@ == part(text_of(value)),
{
    match value {
        Some(known) => trim(known),
        None => {
            proof {
                reveal_strlit("");
            }
            let text = "";
            assert(text@ =~= seq![]);
            text
        },
    }
}

fn digit_text(value: u32) -> (text: &'static str)
    requires
        value < 16,
    ensures
        text@ == seq![hex_digit(value as int)],
{
    proof {
        reveal_strlit("0");
        reveal_strlit("1");
        reveal_strlit("2");
        reveal_strlit("3");
        reveal_strlit("4");
        reveal_strlit("5");
        reveal_strlit("6");
        reveal_strlit("7");
        reveal_strlit("8");
        reveal_strlit("9");
        reveal_strlit("a");
        reveal_strlit("b");
        reveal_strlit("c");
        reveal_strlit("d");
        reveal_strlit("e");
        reveal_strlit("f");
    }
    let text: &'static str = match value {
        0 => "0",
        1 => "1",
        2 => "2",
        3 => "3",
        4 => "4",
        5 => "5",
        6 => "6",
        7 => "7",
        8 => "8",
        9 => "9",
        10 => "a",
        11 => "b",
        12 => "c",
        13 => "d",
        14 => "e",
        _ => "f",
    };
    assert(text@ =~= seq![hex_digit(value as int)]);
    text
}

fn append_decimal(text: &mut String, value: u32)
    ensures
        final(text)@ == old(text)@ + decimal(value as nat),
    decreases value,
{
    let ghost before = text@;
    if value >= 10 {
        append_decimal(text, value / 10);
    }
    text.append(digit_text(value % 10));
    assert(text@ =~= before + decimal(value as nat));
}

/// What tells an output from others.
pub fn output_identity_key(metadata: &OutputMetadata, output: u32) -> (key: String)
    ensures
        key@ == identity_key(metadata.told(), output),
{
    let name = output_part(metadata.name);
    let description = output_part(metadata.description);
    let make = output_part(metadata.make);
    let model = output_part(metadata.model);
    if name.unicode_len() == 0 && description.unicode_len() == 0 && make.unicode_len() == 0
        && model.unicode_len() == 0 {
        let mut key = String::from_str("global=");
        append_decimal(&mut key, output);
        return key;
    }
    let mut key = String::from_str("name=");
    key.append(name);
    key.append("|description=");
    key.append(description);
    key.append("|make=");
    key.append(make);
    key.append("|model=");
    key.append(model);
    key
}

/// The identity that a digest gives an output.
pub fn instance_id_from_digest(digest: &[u8; 16]) -> (id: String)
    ensures
        id@ == instance_id(digest@),
{
    let mut id = String::from_str("layer-");
    let ghost prefix = id@;
    assert(prefix + hex(digest@.take(0)) =~= prefix);
    for index in 0..16
        invariant
            id@ == prefix + hex(digest@.take(index as int)),
            digest@.len() == 16,
    {
        let byte: u32 = digest[index] as u32;
        id.append(digit_text(byte / 16));
        id.append(digit_text(byte % 16));
        proof {
            let done = digest@.take(index + 1);
            assert(done.drop_last() =~= digest@.take(index as int));
            assert(done.last() == digest@[index as int]);
            assert(id@ =~= prefix + hex(done));
        }
    }
    assert(digest@.take(16) =~= digest@);
    id
}

/// The identity that an output keeps from one run to the next.
pub fn layer_instance_id(metadata: &OutputMetadata, output: u32) -> (id: String)
    ensures
        id@ == instance_id(md5_digest(encode_utf8(identity_key(metadata.told(), output)))),
        id@.len() == 38,
{
    let key = output_identity_key(metadata, output);
    let digest: [u8; 16] = digest_of(key.as_str().as_bytes());
    proof {
        instance_id_has_fixed_length(digest@);
    }
    instance_id_from_digest(&digest)
}

/// What an output is called: its name where it has one, else a prefix and its
/// number.
pub fn display_name(prefix: &str, name: Option<&str>, output: u32) -> (result: String)
    ensures
        result@ == called(prefix@, text_of(name), output),
{
    if let Some(text) = name {
        if text.unicode_len() > 0 {
            return String::from_str(text);
        }
    }
    let mut result = String::from_str(prefix);
    result.append("-");
    append_decimal(&mut result, output);
    result
}

proof fn hex_has_two_digits_per_byte(bytes: Seq<u8>)
    ensures
        hex(bytes).len() == 2 * bytes.len(),
    decreases bytes.len(),
{
    if bytes.len() > 0 {
        hex_has_two_digits_per_byte(bytes.drop_last());
    }
}

/// Every identity has the same length.
pub proof fn instance_id_has_fixed_length(digest: Seq<u8>)
    requires
        digest.len() == 16,
    ensures
        instance_id(digest).len() == 38,
{
    reveal_strlit("layer-");
    hex_has_two_digits_per_byte(digest);
}

/// An output of which something is known keeps its identity when the compositor
/// gives it another number, and white space around what is known does not count.
pub proof fn identity_follows_the_metadata(
    left: Told,
    left_output: u32,
    right: Told,
    right_output: u32,
)
    requires
        !left.is_blank(),
        part(left.name) == part(right.name),
        part(left.description) == part(right.description),
        part(left.make) == part(right.make),
        part(left.model) == part(right.model),
    ensures
        identity_key(left, left_output) == identity_key(right, right_output),
{
}

proof fn decimal_is_not_empty(value: nat)
    ensures
        decimal(value).len() >= 1,
    decreases value,
{
    if value >= 10 {
        decimal_is_not_empty(value / 10);
    }
}

proof fn numbers_are_told_apart(left: nat, right: nat)
    requires
        decimal(left) == decimal(right),
    ensures
        left == right,
    decreases left,
{
    assert(decimal(left).last() == digit((left % 10) as int));
    assert(decimal(right).last() == digit((right % 10) as int));
    assert(left % 10 == right % 10);
    if left >= 10 {
        decimal_is_not_empty(left / 10);
    }
    if right >= 10 {
        decimal_is_not_empty(right / 10);
    }
    if left >= 10 && right >= 10 {
        assert(decimal(left).drop_last() =~= decimal(left / 10));
        assert(decimal(right).drop_last() =~= decimal(right / 10));
        numbers_are_told_apart(left / 10, right / 10);
    }
}

proof fn middle_is_told_apart(
    before: Seq<char>,
    left: Seq<char>,
    right: Seq<char>,
    after: Seq<char>,
)
    requires
        before + left + after == before + right + after,
    ensures
        left == right,
{
    let whole = before + left + after;
    let other = before + right + after;
    assert(whole.len() == other.len());
    assert(left =~= whole.subrange(before.len() as int, (before.len() + left.len()) as int));
    assert(right =~= other.subrange(before.len() as int, (before.len() + right.len()) as int));
}

/// An output is called by its name where it has one, and the name is not looked into.
/// Without a name the prefix leads, and outputs of different numbers are called
/// differently.
pub proof fn outputs_are_called_differently(
    prefix: &str,
    name: &str,
    left: u32,
    right: u32,
    named: String,
    first: String,
    second: String,
    empty: &str,
    third: String,
)
    requires
        call_ensures(display_name, (prefix, Some(name), left), named),
        call_ensures(display_name, (prefix, None::<&str>, left), first),
        call_ensures(display_name, (prefix, None::<&str>, right), second),
        empty@.len() == 0,
        call_ensures(display_name, (prefix, Some(empty), left), third),
    ensures
        name@.len() > 0 ==> named@ == name@,
        first@.take(prefix@.len() as int) == prefix@,
        first@.len() > prefix@.len() + 1,
        first@[prefix@.len() as int] == '-',
        first@ == second@ <==> left == right,
        third@ == first@,
{
    reveal_strlit("-");
    decimal_is_not_empty(left as nat);
    assert(first@ == prefix@ + "-"@ + decimal(left as nat));
    assert(first@.take(prefix@.len() as int) =~= prefix@);
    assert(first@[prefix@.len() as int] == "-"@[0]);
    if first@ == second@ {
        let nothing = Seq::<char>::empty();
        assert(prefix@ + "-"@ + decimal(left as nat) + nothing =~= first@);
        assert(prefix@ + "-"@ + decimal(right as nat) + nothing =~= second@);
        middle_is_told_apart(
            prefix@ + "-"@,
            decimal(left as nat),
            decimal(right as nat),
            nothing,
        );
        numbers_are_told_apart(left as nat, right as nat);
    }
}

/// Outputs of which nothing is known are told apart by their numbers, and from all others.
/// Where something is known the number does not count.
pub proof fn outputs_without_metadata_are_told_apart(
    blank: OutputMetadata,
    known: OutputMetadata,
    left: u32,
    right: u32,
    first: String,
    second: String,
    other: String,
    same: String,
    part_of_name: &str,
)
    requires
        blank.name is None,
        blank.description is None,
        blank.make is None,
        blank.model is None,
        call_ensures(output_part, (known.name,), part_of_name),
        part_of_name@.len() > 0,
        call_ensures(output_identity_key, (&blank, left), first),
        call_ensures(output_identity_key, (&blank, right), second),
        call_ensures(output_identity_key, (&known, left), other),
        call_ensures(output_identity_key, (&known, right), same),
    ensures
        first@ == second@ <==> left == right,
        first@ != other@,
        other@ == same@,
{
    reveal_strlit("global=");
    reveal_strlit("name=");
    assert(first@[0] == "global="@[0]);
    assert(other@[0] == "name="@[0]);
    if first@ == second@ {
        let nothing = Seq::<char>::empty();
        assert("global="@ + decimal(left as nat) + nothing =~= first@);
        assert("global="@ + decimal(right as nat) + nothing =~= second@);
        middle_is_told_apart("global="@, decimal(left as nat), decimal(right as nat), nothing);
        numbers_are_told_apart(left as nat, right as nat);
    }
}

/// Outputs that differ in one part of what is known of them, white space at its ends left
/// aside, have different identities.
pub proof fn outputs_with_metadata_are_told_apart(
    left: OutputMetadata,
    right: OutputMetadata,
    left_parts: (&str, &str, &str, &str),
    right_parts: (&str, &str, &str, &str),
    number: u32,
    first: String,
    second: String,
)
    requires
        call_ensures(output_part, (left.name,), left_parts.0),
        call_ensures(output_part, (left.description,), left_parts.1),
        call_ensures(output_part, (left.make,), left_parts.2),
        call_ensures(output_part, (left.model,), left_parts.3),
        call_ensures(output_part, (right.name,), right_parts.0),
        call_ensures(output_part, (right.description,), right_parts.1),
        call_ensures(output_part, (right.make,), right_parts.2),
        call_ensures(output_part, (right.model,), right_parts.3),
        call_ensures(output_identity_key, (&left, number), first),
        call_ensures(output_identity_key, (&right, number), second),
        first@ == second@,
    ensures
        left_parts.1@ == right_parts.1@ && left_parts.2@ == right_parts.2@ && left_parts.3@
            == right_parts.3@ ==> left_parts.0@ == right_parts.0@,
        left_parts.0@ == right_parts.0@ && left_parts.2@ == right_parts.2@ && left_parts.3@
            == right_parts.3@ ==> left_parts.1@ == right_parts.1@,
        left_parts.0@ == right_parts.0@ && left_parts.1@ == right_parts.1@ && left_parts.3@
            == right_parts.3@ ==> left_parts.2@ == right_parts.2@,
        left_parts.0@ == right_parts.0@ && left_parts.1@ == right_parts.1@ && left_parts.2@
            == right_parts.2@ ==> left_parts.3@ == right_parts.3@,
{
    reveal_strlit("global=");
    reveal_strlit("name=");
    let (name, description, make, model) = (
        left_parts.0@,
        left_parts.1@,
        left_parts.2@,
        left_parts.3@,
    );
    let (other_name, other_description, other_make, other_model) = (
        right_parts.0@,
        right_parts.1@,
        right_parts.2@,
        right_parts.3@,
    );
    if left.told().is_blank() {
        assert(first@[0] == "global="@[0]);
    } else {
        assert(first@[0] == "name="@[0]);
    }
    if right.told().is_blank() {
        assert(second@[0] == "global="@[0]);
    } else {
        assert(second@[0] == "name="@[0]);
    }
    assert(left.told().is_blank() == right.told().is_blank());
    if left.told().is_blank() {
        assert(name =~= other_name && description =~= other_description && make =~= other_make
            && model =~= other_model);
    } else {
        parts_are_told_apart(
            (name, description, make, model),
            (other_name, other_description, other_make, other_model),
            first@,
            second@,
        );
    }
}

proof fn parts_are_told_apart(
    left: (Seq<char>, Seq<char>, Seq<char>, Seq<char>),
    right: (Seq<char>, Seq<char>, Seq<char>, Seq<char>),
    first: Seq<char>,
    second: Seq<char>,
)
    requires
        first == "name="@ + left.0 + "|description="@ + left.1 + "|make="@ + left.2 + "|model="@
            + left.3,
        second == "name="@ + right.0 + "|description="@ + right.1 + "|make="@ + right.2
            + "|model="@ + right.3,
        first == second,
    ensures
        left.1 == right.1 && left.2 == right.2 && left.3 == right.3 ==> left.0 == right.0,
        left.0 == right.0 && left.2 == right.2 && left.3 == right.3 ==> left.1 == right.1,
        left.0 == right.0 && left.1 == right.1 && left.3 == right.3 ==> left.2 == right.2,
        left.0 == right.0 && left.1 == right.1 && left.2 == right.2 ==> left.3 == right.3,
{
    let (name, description, make, model) = ("name="@, "|description="@, "|make="@, "|model="@);
    if left.1 == right.1 && left.2 == right.2 && left.3 == right.3 {
        let after = description + left.1 + make + left.2 + model + left.3;
        assert(name + left.0 + after =~= first);
        assert(name + right.0 + after =~= second);
        middle_is_told_apart(name, left.0, right.0, after);
    }
    if left.0 == right.0 && left.2 == right.2 && left.3 == right.3 {
        let before = name + left.0 + description;
        let after = make + left.2 + model + left.3;
        assert(before + left.1 + after =~= first);
        assert(before + right.1 + after =~= second);
        middle_is_told_apart(before, left.1, right.1, after);
    }
    if left.0 == right.0 && left.1 == right.1 && left.3 == right.3 {
        let before = name + left.0 + description + left.1 + make;
        let after = model + left.3;
        assert(before + left.2 + after =~= first);
        assert(before + right.2 + after =~= second);
        middle_is_told_apart(before, left.2, right.2, after);
    }
    if left.0 == right.0 && left.1 == right.1 && left.2 == right.2 {
        let before = name + left.0 + description + left.1 + make + left.2 + model;
        let after = Seq::<char>::empty();
        assert(before + left.3 + after =~= first);
        assert(before + right.3 + after =~= second);
        middle_is_told_apart(before, left.3, right.3, after);
    }
}

proof fn bytes_are_told_apart(left: Seq<u8>, right: Seq<u8>)
    requires
        hex(left) == hex(right),
    ensures
        left == right,
    decreases left.len(),
{
    hex_has_two_digits_per_byte(left);
    hex_has_two_digits_per_byte(right);
    if left.len() > 0 {
        let text = hex(left);
        let (low, high) = (left.last() as int % 16, left.last() as int / 16);
        let (other_low, other_high) = (right.last() as int % 16, right.last() as int / 16);
        assert(text.last() == hex_digit(low));
        assert(text.last() == hex_digit(other_low));
        assert(text[text.len() - 2] == hex_digit(high));
        assert(text[text.len() - 2] == hex_digit(other_high));
        assert(low == other_low && high == other_high);
        assert(text.take(text.len() - 2) =~= hex(left.drop_last()));
        assert(text.take(text.len() - 2) =~= hex(right.drop_last()));
        bytes_are_told_apart(left.drop_last(), right.drop_last());
        assert(left =~= left.drop_last().push(left.last()));
        assert(right =~= right.drop_last().push(right.last()));
    } else {
        assert(left =~= right);
    }
}

/// Whether a character is a hexadecimal digit in lower case.
pub open spec fn is_hex_digit(c: char) -> bool {
    '0' <= c <= '9' || 'a' <= c <= 'f'
}

proof fn hex_is_made_of_digits(bytes: Seq<u8>, at: int)
    requires
        0 <= at < hex(bytes).len(),
    ensures
        is_hex_digit(hex(bytes)[at]),
    decreases bytes.len(),
{
    if bytes.len() > 0 {
        hex_has_two_digits_per_byte(bytes.drop_last());
        if at < hex(bytes.drop_last()).len() {
            hex_is_made_of_digits(bytes.drop_last(), at);
        }
    }
}

/// Different digests give different identities, all of the same length, in lower case
/// hexadecimal behind the same word.
pub proof fn digests_are_told_apart(
    left: [u8; 16],
    right: [u8; 16],
    first: String,
    second: String,
    at: int,
)
    requires
        call_ensures(instance_id_from_digest, (&left,), first),
        call_ensures(instance_id_from_digest, (&right,), second),
    ensures
        first@ == second@ ==> left@ == right@,
        first@.len() == 38,
        first@.take(6) == "layer-"@,
        6 <= at < 38 ==> is_hex_digit(first@[at]),
{
    reveal_strlit("layer-");
    instance_id_has_fixed_length(left@);
    assert(first@.take(6) =~= "layer-"@);
    if 6 <= at < 38 {
        hex_is_made_of_digits(left@, at - 6);
        assert(first@[at] == hex(left@)[at - 6]);
    }
    if first@ == second@ {
        assert(first@.skip(6) =~= hex(left@));
        assert(second@.skip(6) =~= hex(right@));
        bytes_are_told_apart(left@, right@);
    }
}

/// Whether a code point stands for white space: tabs and line ends, the spaces of all
/// widths and the separators.
pub open spec fn is_blank_code(code: int) -> bool {
    ||| code == 0x9 || code == 0xa || code == 0xb || code == 0xc || code == 0xd
    ||| code == 0x20 || code == 0x85 || code == 0xa0 || code == 0x1680
    ||| 0x2000 <= code < 0x200b
    ||| code == 0x2028 || code == 0x2029 || code == 0x202f || code == 0x205f || code == 0x3000
}

proof fn trimmed_has_no_blank_ends(text: Seq<char>)
    ensures
        trimmed(text).len() > 0 ==> !is_blank_code(trimmed(text)[0] as int) && !is_blank_code(
            trimmed(text).last() as int,
        ),
        text.len() > 0 && !is_blank_code(text[0] as int) && !is_blank_code(text.last() as int)
            ==> trimmed(text) == text,
        text.len() > 0 && is_blank_code(text[0] as int) ==> trimmed(text) == trimmed(
            text.drop_first(),
        ),
    decreases text.len(),
{
    if text.len() > 0 {
        if white_space(text[0]) {
            trimmed_has_no_blank_ends(text.drop_first());
        } else if white_space(text.last()) {
            trimmed_has_no_blank_ends(text.drop_last());
        }
    }
}

proof fn blank_end_is_trimmed(text: Seq<char>)
    requires
        text.len() > 0,
        is_blank_code(text.last() as int),
    ensures
        trimmed(text) == trimmed(text.drop_last()),
    decreases text.len(),
{
    if white_space(text[0]) {
        if text.len() > 1 {
            blank_end_is_trimmed(text.drop_first());
            assert(text.drop_first().drop_last() =~= text.drop_last().drop_first());
        } else {
            assert(text.drop_first() =~= text.drop_last());
        }
    }
}

/// White space at the ends of a part does not count and nothing else is taken away.
pub proof fn only_white_space_is_trimmed(
    text: &str,
    part_of_text: &str,
    shorter: &str,
    part_of_shorter: &str,
    nothing: &str,
)
    requires
        call_ensures(output_part, (Some(text),), part_of_text),
        call_ensures(output_part, (Some(shorter),), part_of_shorter),
        call_ensures(output_part, (None::<&str>,), nothing),
    ensures
        nothing@.len() == 0,
        part_of_text@.len() > 0 ==> !is_blank_code(part_of_text@[0] as int) && !is_blank_code(
            part_of_text@.last() as int,
        ),
        text@.len() > 0 && !is_blank_code(text@[0] as int) && !is_blank_code(text@.last() as int)
            ==> part_of_text@ == text@,
        text@.len() > 0 && is_blank_code(text@[0] as int) && shorter@ == text@.drop_first()
            ==> part_of_text@ == part_of_shorter@,
        text@.len() > 0 && is_blank_code(text@.last() as int) && shorter@ == text@.drop_last()
            ==> part_of_text@ == part_of_shorter@,
{
    trimmed_has_no_blank_ends(text@);
    if text@.len() > 0 && is_blank_code(text@.last() as int) {
        blank_end_is_trimmed(text@);
    }
}

/// An output of which something is known keeps its identity when its number changes, and
/// an identity has the same length always.
pub proof fn identity_is_kept_from_run_to_run(
    known: OutputMetadata,
    left: u32,
    right: u32,
    part_of_name: &str,
    first: String,
    second: String,
)
    requires
        call_ensures(output_part, (known.name,), part_of_name),
        part_of_name@.len() > 0,
        call_ensures(layer_instance_id, (&known, left), first),
        call_ensures(layer_instance_id, (&known, right), second),
    ensures
        first@ == second@,
        first@.len() == 38,
        first@.take(6) == "layer-"@,
{
    reveal_strlit("layer-");
    identity_follows_the_metadata(known.told(), left, known.told(), right);
    assert(first@.take(6) =~= "layer-"@);
}

} // verus!
