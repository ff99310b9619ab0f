//! Source text of an enum whose variants are the named entries of the data
//! file.

use vstd::prelude::*;
use vstd::string::{StrSliceExecFns, StringExecFns};
use crate::text::{decimal, push_decimal};

verus! {

/// An entry of the data file that becomes a variant of an enum.
pub trait ToEnum {
    /// The name of the entry.
    fn name(&self) -> &str;

    /// The number of the entry.
    fn value(&self) -> &usize;
}

/// An enum to generate.
pub struct Enum<'a> {
    name: &'static str,
    members: Vec<EnumMember<'a>>,
}

/// A variant of an enum to generate.
pub struct EnumMember<'a> {
    name: &'a str,
    value: &'a usize,
}

/// What `str::to_lowercase` returns for a string.
pub uninterp spec fn lowercase(s: Seq<char>) -> Seq<char>;

/// `str::to_lowercase`: the lowercase equivalent of a string, as std defines
/// it over the whole of Unicode.
#[verifier::external_body]
fn to_lowercase(s: &str) -> (lowered: String)
    ensures
        lowered@ == lowercase(s@),
{
    s.to_lowercase()
}

/// `String::push`: appends the given character to the end of the string.
#[verifier::external_body]
fn push_char(out: &mut String, c: char)
    ensures
        final(out)@ == old(out)@.push(c),
{
    out.push(c)
}

/// The uppercase of a character of the basic Latin alphabet; any other
/// character as it is.
pub open spec fn upper(c: char) -> char {
    if 'a' <= c && c <= 'z' {
        ((c as u8) - 32) as char
    } else {
        c
    }
}

/// The number of characters before the first underscore, or of all of them
/// where there is none.
pub open spec fn head_len(s: Seq<char>) -> nat
    decreases s.len(),
{
    if s.len() == 0 || s[0] == '_' {
        0
    } else {
        1 + head_len(s.skip(1))
    }
}

/// A part of a name in camel case: its first character in uppercase and the
/// rest, if there is any, in lowercase.
pub open spec fn cased(part: Seq<char>) -> Seq<char> {
    if part.len() == 0 {
        Seq::empty()
    } else if part.len() == 1 {
        seq![upper(part[0])]
    } else {
        seq![upper(part[0])] + lowercase(part.skip(1))
    }
}

/// A name in camel case: the parts between its underscores, each in camel
/// case, one after the other.
pub open spec fn camelcase(s: Seq<char>) -> Seq<char>
    decreases s.len(),
{
    if s.len() == 0 {
        Seq::empty()
    } else {
        let k = head_len(s) as int;
        if k < s.len() {
            cased(s.take(k)) + camelcase(s.skip(k + 1))
        } else {
            cased(s)
        }
    }
}

/// Whether the first character of every part between underscores is one of
/// the first 128 characters.
pub open spec fn parts_start_plain(s: Seq<char>) -> bool
    decreases s.len(),
{
    if s.len() == 0 {
        true
    } else {
        let k = head_len(s) as int;
        &&& k > 0 ==> (s[0] as u32) < 128
        &&& k < s.len() ==> parts_start_plain(s.skip(k + 1))
    }
}

/// The head of a name is the stretch up to the first underscore.
proof fn lemma_head_len_is(s: Seq<char>, k: int)
    requires
        0 <= k <= s.len(),
        forall|i: int| 0 <= i < k ==> s[i] != '_',
        k < s.len() ==> s[k] == '_',
    ensures
        head_len(s) == k,
    decreases s.len(),
{
    if k > 0 {
        let rest = s.skip(1);
        assert forall|i: int| 0 <= i < k - 1 implies rest[i] != '_' by {
            assert(rest[i] == s[i + 1]);
        }
        lemma_head_len_is(rest, k - 1);
    }
}

/// The uppercase of a character of the basic Latin alphabet; any other
/// character as it is.
pub fn to_upper(c: char) -> (u: char)
    ensures
        u == upper(c),
{
    if 'a' <= c && c <= 'z' {
        ((c as u8) - 32) as char
    } else {
        c
    }
}

/// Appends a part of a name in camel case, given its first character and the
/// lowercase of the rest, if there is a rest.
pub fn push_cased(out: &mut String, first: char, lowered: Option<&str>)
    ensures
        final(out)@ == old(out)@ + seq![upper(first)] + match lowered {
            Some(rest) => rest@,
            None => Seq::<char>::empty(),
        },
{
    push_char(out, to_upper(first));
    match lowered {
        Some(rest) => {
            out.append(rest);
        },
        None => {},
    }
    proof {
        assert(out@ =~= old(out)@ + seq![upper(first)] + match lowered {
            Some(rest) => rest@,
            None => Seq::<char>::empty(),
        });
    }
}

/// A name in camel case: the underscores are dropped, the first character of
/// every part between them is put in uppercase and the rest of the part in
/// lowercase.
pub fn to_camelcase(input: &str) -> (output: String)
    requires
        parts_start_plain(input@),
    ensures
        output@ == camelcase(input@),
{
    let len = input.unicode_len();
    let mut output = String::from_str("");
    proof {
        reveal_strlit("");
        assert(input@.skip(0) =~= input@);
    }
    let mut i: usize = 0;
    while i < len
        invariant
            len == input@.len(),
            i <= len,
            output@ + camelcase(input@.skip(i as int)) == camelcase(input@),
            parts_start_plain(input@.skip(i as int)),
        decreases len - i,
    {
        let ghost tail = input@.skip(i as int);
        let mut k: usize = i;
        while k < len && input.get_char(k) != '_'
            invariant
                len == input@.len(),
                i <= k <= len,
                forall|j: int| i <= j < k ==> input@[j] != '_',
            decreases len - k,
        {
            k += 1;
        }
        proof {
            assert forall|j: int| 0 <= j < k - i implies tail[j] != '_' by {
                assert(tail[j] == input@[i + j]);
            }
            lemma_head_len_is(tail, k - i);
            assert(tail.take(k - i) =~= input@.subrange(i as int, k as int));
            if k < len {
                assert(tail.skip(k - i + 1) =~= input@.skip(k + 1));
            }
        }
        let ghost before = output@;
        if k > i {
            let first = input.get_char(i);
            if k - i > 1 {
                let rest = input.substring_char(i + 1, k);
                let lowered = to_lowercase(rest);
                push_cased(&mut output, first, Some(lowered.as_str()));
                proof {
                    assert(tail.take(k - i).skip(1) =~= rest@);
                }
            } else {
                push_cased(&mut output, first, None);
            }
            proof {
                assert(tail.take(k - i)[0] == first);
                assert(output@ =~= before + cased(tail.take(k - i)));
            }
        }
        proof {
            assert(output@ =~= before + cased(tail.take(k - i)));
            if k < len {
                assert(camelcase(tail) == cased(tail.take(k - i)) + camelcase(
                    input@.skip(k + 1),
                ));
                assert(output@ + camelcase(input@.skip(k + 1)) =~= before + camelcase(tail));
            } else {
                assert(tail.take(k - i) =~= tail);
                assert(input@.skip(len as int) =~= Seq::<char>::empty());
                assert(output@ + camelcase(input@.skip(len as int)) =~= before + camelcase(tail));
            }
        }
        if k < len {
            i = k + 1;
        } else {
            i = len;
        }
    }
    proof {
        assert(input@.skip(len as int) =~= Seq::<char>::empty());
        assert(output@ + Seq::<char>::empty() =~= output@);
    }
    output
}

impl<'a> EnumMember<'a> {
    /// The name of the entry, as it was given.
    pub closed spec fn name_ref(&self) -> &'a str {
        self.name
    }

    /// The number of the entry, as it was given.
    pub closed spec fn value_ref(&self) -> &'a usize {
        self.value
    }

    /// The name of the entry.
    pub open spec fn name(&self) -> Seq<char> {
        self.name_ref()@
    }

    /// The number of the entry.
    pub open spec fn value(&self) -> usize {
        *self.value_ref()
    }

    /// The source text of the variant.
    pub open spec fn text(&self) -> Seq<char> {
        camelcase(self.name()) + " = "@ + decimal(self.value() as nat)
    }

    /// A variant with the given name and number.
    pub fn new(name: &'a str, value: &'a usize) -> (member: Self)
        ensures
            member.name_ref() == name,
            member.value_ref() == value,
    {
        EnumMember { name, value }
    }

    /// The source text of the variant: its name in camel case, an equals
    /// sign, and its number.
    pub fn to_string(&self) -> (text: String)
        requires
            parts_start_plain(self.name()),
        ensures
            text@ == self.text(),
    {
        let mut text = to_camelcase(self.name);
        text.append(" = ");
        push_decimal(&mut text, *self.value as u64);
        text
    }
}

/// The source text of the variants, each on a line of its own, indented and
/// followed by a comma.
pub open spec fn lines(members: Seq<EnumMember<'_>>) -> Seq<char>
    decreases members.len(),
{
    if members.len() == 0 {
        Seq::empty()
    } else {
        lines(members.drop_last()) + "    "@ + members.last().text() + ",\n"@
    }
}

impl<'a> Enum<'a> {
    /// The name of the enum.
    pub closed spec fn name(&self) -> Seq<char> {
        self.name@
    }

    /// The variants of the enum.
    pub closed spec fn members(&self) -> Seq<EnumMember<'a>> {
        self.members@
    }

    /// The source text of the enum.
    pub open spec fn text(&self) -> Seq<char> {
        "#[derive(Debug, Copy, Clone, Eq, PartialEq)]\n"@ + "pub enum "@ + self.name() + " {\n"@
            + lines(self.members()) + "}\n"@
    }

    /// Whether the name of every variant can be put in camel case.
    pub open spec fn plain(&self) -> bool {
        forall|i: int|
            0 <= i < self.members().len() ==> parts_start_plain(
                #[trigger] self.members()[i].name(),
            )
    }

    /// The number of variants.
    pub fn len(&self) -> (n: usize)
        ensures
            n == self.members().len(),
    {
        self.members.len()
    }

    /// The source text of the enum: its derives, its name, and its variants
    /// in braces.
    pub fn to_string(&self) -> (text: String)
        requires
            self.plain(),
        ensures
            text@ == self.text(),
    {
        let mut text = String::from_str("#[derive(Debug, Copy, Clone, Eq, PartialEq)]\n");
        text.append("pub enum ");
        text.append(self.name);
        text.append(" {\n");
        let ghost head = text@;
        let mut i: usize = 0;
        while i < self.members.len()
            invariant
                i <= self.members.len(),
                self.plain(),
                text@ == head + lines(self.members@.take(i as int)),
            decreases self.members.len() - i,
        {
            assert(parts_start_plain(self.members()[i as int].name()));
            let member = self.members[i].to_string();
            text.append("    ");
            text.append(member.as_str());
            text.append(",\n");
            proof {
                let taken = self.members@.take(i + 1);
                assert(taken.drop_last() =~= self.members@.take(i as int));
                assert(taken.last() == self.members@[i as int]);
                assert(text@ =~= head + lines(taken));
            }
            i += 1;
        }
        proof {
            assert(self.members@.take(self.members@.len() as int) =~= self.members@);
        }
        text.append("}\n");
        text
    }
}

/// The enum with the given name whose variants are the given entries, in
/// their order: each variant has the name and the number that its entry
/// gives for itself.
pub fn from_slice<'a, D: ToEnum>(name: &'static str, data: &'a [D]) -> (generated: Enum<'a>)
    ensures
        generated.name() == name@,
        generated.members().len() == data@.len(),
        forall|i: int|
            0 <= i < data@.len() ==> {
                &&& call_ensures(D::name, (&data@[i],), (#[trigger] generated.members()[i]).name_ref())
                &&& call_ensures(D::value, (&data@[i],), generated.members()[i].value_ref())
            },
{
    let mut members: Vec<EnumMember<'a>> = Vec::new();
    let mut i: usize = 0;
    while i < data.len()
        invariant
            i <= data.len(),
            members@.len() == i,
            forall|k: int|
                0 <= k < i ==> {
                    &&& call_ensures(D::name, (&data@[k],), (#[trigger] members@[k]).name_ref())
                    &&& call_ensures(D::value, (&data@[k],), members@[k].value_ref())
                },
        decreases data.len() - i,
    {
        let d = &data[i];
        members.push(EnumMember { name: d.name(), value: d.value() });
        i += 1;
    }
    Enum { name, members }
}

} // verus!
