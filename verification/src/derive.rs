//! What the derives `WrapEnum` and `TryIntoEnum` generate for an enum.
//!
//! The functions here work on the shape of the item that a derive is applied
//! to, and return what is to be generated as plain values: which impls, or
//! which complaints. Reading the item and writing out the code is left to
//! the macro that calls them.

use vstd::prelude::*;
use vstd::string::StringExecFns;

verus! {

/// The type of a field, as far as the derives look at it.
#[derive(Debug, Clone, PartialEq, Eq)]
pub enum Type {
    /// A type that is written as a path, with its text.
    Path(String),
    /// Any other form of type.
    Other,
}

/// The fields of a variant.
#[derive(Debug, Clone, PartialEq, Eq)]
pub enum Fields {
    /// Fields with names, in braces.
    Named,
    /// Fields without names, in parentheses, with their types.
    Unnamed(Vec<Type>),
    /// No fields at all.
    Unit,
}

/// A variant of an enum.
#[derive(Debug, Clone, PartialEq, Eq)]
pub struct Variant {
    pub ident: String,
    pub fields: Fields,
}

/// What kind of item a derive is applied to.
#[derive(Debug, Clone, PartialEq, Eq)]
pub enum Data {
    Struct,
    Enum(Vec<Variant>),
    Union,
}

/// The generics of an item, as far as the derives look at them.
#[derive(Debug, Clone, Copy, PartialEq, Eq, Structural)]
pub struct Generics {
    /// The number of generic parameters.
    pub params: usize,
    /// Whether the item has a `where` clause.
    pub where_clause: bool,
}

/// The item that a derive is applied to.
#[derive(Debug, Clone, PartialEq, Eq)]
pub struct DeriveInput {
    pub ident: String,
    pub generics: Generics,
    pub data: Data,
}

/// What a derive complains about.
#[derive(Debug, Clone, Copy, PartialEq, Eq, Structural)]
pub enum Complaint {
    /// The item is not an enum.
    ExpectedEnum,
    /// The enum has generic parameters or a `where` clause.
    ExpectedConcrete,
    /// The variant has parentheses and no field in them.
    ExpectedOneField,
    /// The variant's field has a type that is not written as a path.
    ExpectedPath,
    /// The variant has more than one field.
    ExpectedSingleField,
    /// The variant has named fields or none.
    ExpectedUnnamed,
    /// The function has arguments.
    NoArguments,
}

impl Complaint {
    /// The complaint in words.
    pub open spec fn text(self) -> Seq<char> {
        match self {
            Complaint::ExpectedEnum => "Expected an enum"@,
            Complaint::ExpectedConcrete => "Expected concrete types"@,
            Complaint::ExpectedOneField => "Expected one field in the enum variant"@,
            Complaint::ExpectedPath => "Expected a path"@,
            Complaint::ExpectedSingleField => "Expected a single field in the enum variant"@,
            Complaint::ExpectedUnnamed => "Expected an unnamed field"@,
            Complaint::NoArguments => "this function cannot accept arguments"@,
        }
    }

    /// The complaint in words.
    pub fn message(&self) -> (s: String)
        ensures
            s@ == self.text(),
    {
        match self {
            Complaint::ExpectedEnum => String::from_str("Expected an enum"),
            Complaint::ExpectedConcrete => String::from_str("Expected concrete types"),
            Complaint::ExpectedOneField => String::from_str(
                "Expected one field in the enum variant",
            ),
            Complaint::ExpectedPath => String::from_str("Expected a path"),
            Complaint::ExpectedSingleField => String::from_str(
                "Expected a single field in the enum variant",
            ),
            Complaint::ExpectedUnnamed => String::from_str("Expected an unnamed field"),
            Complaint::NoArguments => String::from_str("this function cannot accept arguments"),
        }
    }
}

/// One piece of what `WrapEnum` generates.
#[derive(Debug, Clone, PartialEq, Eq)]
pub enum Item {
    /// `impl Into<enum_ident> for inner_type`, which wraps the value in the
    /// variant `variant_ident`.
    IntoImpl { inner_type: String, enum_ident: String, variant_ident: String },
    /// A compile error.
    CompileError(Complaint),
}

/// What is wrong with the item as a whole, if anything: it must be an enum
/// without generic parameters and without a `where` clause.
pub open spec fn refused(input: DeriveInput) -> Option<Complaint> {
    if !(input.data is Enum) {
        Some(Complaint::ExpectedEnum)
    } else if input.generics.params != 0 || input.generics.where_clause {
        Some(Complaint::ExpectedConcrete)
    } else {
        None
    }
}

/// What `WrapEnum` generates for one variant: the impl for the type of its
/// single unnamed field, or the complaint about its fields.
pub open spec fn wrapped_variant(enum_ident: String, variant: Variant) -> Item {
    match variant.fields {
        Fields::Unnamed(unnamed) => if unnamed@.len() == 0 {
            Item::CompileError(Complaint::ExpectedOneField)
        } else if unnamed@.len() == 1 {
            match unnamed@[0] {
                Type::Path(inner_type) => Item::IntoImpl {
                    inner_type,
                    enum_ident,
                    variant_ident: variant.ident,
                },
                Type::Other => Item::CompileError(Complaint::ExpectedPath),
            }
        } else {
            Item::CompileError(Complaint::ExpectedSingleField)
        },
        _ => Item::CompileError(Complaint::ExpectedUnnamed),
    }
}

/// What `WrapEnum` generates for an item: one complaint where the item as a
/// whole is refused, and else one piece for each variant, in their order.
pub open spec fn wrapped(input: DeriveInput) -> Seq<Item> {
    match refused(input) {
        Some(complaint) => seq![Item::CompileError(complaint)],
        None => {
            let variants = input.data->Enum_0@;
            Seq::new(variants.len(), |i: int| wrapped_variant(input.ident, variants[i]))
        },
    }
}

/// Checks the item as a whole.
pub fn check_input(input: &DeriveInput) -> (r: Option<Complaint>)
    ensures
        r == refused(*input),
{
    match &input.data {
        Data::Enum(_) => {},
        _ => {
            return Some(Complaint::ExpectedEnum);
        },
    }
    if input.generics.params != 0 || input.generics.where_clause {
        return Some(Complaint::ExpectedConcrete);
    }
    None
}

/// What `WrapEnum` generates for one variant.
pub fn wrap_variant(enum_ident: &String, variant: &Variant) -> (item: Item)
    ensures
        item == wrapped_variant(*enum_ident, *variant),
{
    match &variant.fields {
        Fields::Unnamed(unnamed) => {
            if unnamed.len() == 0 {
                Item::CompileError(Complaint::ExpectedOneField)
            } else if unnamed.len() == 1 {
                match &unnamed[0] {
                    Type::Path(inner_type) => Item::IntoImpl {
                        inner_type: inner_type.clone(),
                        enum_ident: enum_ident.clone(),
                        variant_ident: variant.ident.clone(),
                    },
                    Type::Other => Item::CompileError(Complaint::ExpectedPath),
                }
            } else {
                Item::CompileError(Complaint::ExpectedSingleField)
            }
        },
        _ => Item::CompileError(Complaint::ExpectedUnnamed),
    }
}

/// What `WrapEnum` generates for an item. An item that is not an enum, or an
/// enum with generics, gets one complaint. Every variant of any other enum
/// gets its own piece: an impl of `Into` for the type of its single unnamed
/// field where that type is written as a path, and else a complaint.
pub fn try_wrap_enum(input: &DeriveInput) -> (items: Vec<Item>)
    ensures
        items@ == wrapped(*input),
{
    let mut items: Vec<Item> = Vec::new();
    match check_input(input) {
        Some(complaint) => {
            items.push(Item::CompileError(complaint));
            proof {
                assert(items@ =~= wrapped(*input));
            }
            return items;
        },
        None => {},
    }
    match &input.data {
        Data::Enum(variants) => {
            let mut i: usize = 0;
            while i < variants.len()
                invariant
                    i <= variants.len(),
                    items@.len() == i,
                    forall|k: int|
                        0 <= k < i ==> items@[k] == wrapped_variant(input.ident, variants@[k]),
                decreases variants.len() - i,
            {
                items.push(wrap_variant(&input.ident, &variants[i]));
                i += 1;
            }
            proof {
                assert(items@ =~= wrapped(*input));
            }
        },
        _ => {},
    }
    items
}

/// Checks the function that the attribute `run` is applied to. The function
/// becomes one that runs the commands its body gives, so it cannot accept
/// arguments of its own.
pub fn run(inputs: usize) -> (r: Result<(), Complaint>)
    ensures
        r == if inputs == 0 {
            Ok::<(), Complaint>(())
        } else {
            Err(Complaint::NoArguments)
        },
{
    if inputs != 0 {
        return Err(Complaint::NoArguments);
    }
    Ok(())
}

/// The impl of `TryFrom<i32>` that `TryIntoEnum` generates: a value is
/// compared with the number of each of these variants in their order, and
/// converts to the first variant whose number it is.
#[derive(Debug, Clone, PartialEq, Eq)]
pub struct TryFromImpl {
    pub enum_ident: String,
    pub variant_idents: Vec<String>,
}

/// The names of the variants, in their order.
pub open spec fn idents(variants: Seq<Variant>) -> Seq<String> {
    Seq::new(variants.len(), |i: int| variants[i].ident)
}

/// What `TryIntoEnum` generates for an item: a complaint where the item is
/// not an enum or has generics, and else the impl of `TryFrom<i32>` over all
/// its variants.
pub fn try_into_enum(input: &DeriveInput) -> (r: Result<TryFromImpl, Complaint>)
    ensures
        match refused(*input) {
            Some(complaint) => r == Err::<TryFromImpl, Complaint>(complaint),
            None => {
                &&& r matches Ok(generated)
                &&& generated.enum_ident == input.ident
                &&& generated.variant_idents@ == idents(input.data->Enum_0@)
            },
        },
{
    match check_input(input) {
        Some(complaint) => {
            return Err(complaint);
        },
        None => {},
    }
    let mut variant_idents: Vec<String> = Vec::new();
    match &input.data {
        Data::Enum(variants) => {
            let mut i: usize = 0;
            while i < variants.len()
                invariant
                    i <= variants.len(),
                    variant_idents@.len() == i,
                    forall|k: int| 0 <= k < i ==> variant_idents@[k] == variants@[k].ident,
                decreases variants.len() - i,
            {
                variant_idents.push(variants[i].ident.clone());
                i += 1;
            }
            proof {
                assert(variant_idents@ =~= idents(variants@));
            }
        },
        _ => {},
    }
    Ok(TryFromImpl { enum_ident: input.ident.clone(), variant_idents })
}

/// The position of the first of `numbers` that equals `value`, where there
/// is one.
pub open spec fn first_equal(numbers: Seq<i32>, value: i32) -> Option<int>
    decreases numbers.len(),
{
    if numbers.len() == 0 {
        None
    } else if numbers[0] == value {
        Some(0)
    } else {
        match first_equal(numbers.skip(1), value) {
            Some(i) => Some(i + 1),
            None => None,
        }
    }
}

/// The first position is a position of `value`, and none is before it; and
/// there is no first position only where `value` is nowhere.
proof fn lemma_first_equal(numbers: Seq<i32>, value: i32)
    ensures
        match first_equal(numbers, value) {
            Some(i) => {
                &&& 0 <= i < numbers.len()
                &&& numbers[i] == value
                &&& forall|k: int| 0 <= k < i ==> numbers[k] != value
            },
            None => forall|k: int| 0 <= k < numbers.len() ==> numbers[k] != value,
        },
    decreases numbers.len(),
{
    if numbers.len() > 0 && numbers[0] != value {
        let rest = numbers.skip(1);
        lemma_first_equal(rest, value);
        match first_equal(rest, value) {
            Some(i) => {
                assert forall|k: int| 0 <= k < i + 1 implies numbers[k] != value by {
                    if k > 0 {
                        assert(numbers[k] == rest[k - 1]);
                    }
                }
                assert(numbers[i + 1] == rest[i]);
            },
            None => {
                assert forall|k: int| 0 <= k < numbers.len() implies numbers[k] != value by {
                    if k > 0 {
                        assert(numbers[k] == rest[k - 1]);
                    }
                }
            },
        }
    }
}

/// What the generated `try_from` does with a value: given the numbers of the
/// variants in their order, it finds the first variant whose number the value
/// is, and fails where there is none.
pub fn try_from(discriminants: &Vec<i32>, value: i32) -> (r: Result<usize, ()>)
    ensures
        match first_equal(discriminants@, value) {
            Some(i) => r == Ok::<usize, ()>(i as usize),
            None => r is Err,
        },
        match r {
            Ok(i) => {
                &&& i < discriminants@.len()
                &&& discriminants@[i as int] == value
                &&& forall|k: int| 0 <= k < i ==> discriminants@[k] != value
            },
            Err(_) => forall|k: int| 0 <= k < discriminants@.len() ==> discriminants@[k] != value,
        },
{
    let mut i: usize = 0;
    proof {
        assert(discriminants@.skip(0) =~= discriminants@);
    }
    while i < discriminants.len()
        invariant
            i <= discriminants.len(),
            first_equal(discriminants@, value) == match first_equal(
                discriminants@.skip(i as int),
                value,
            ) {
                Some(k) => Some(k + i),
                None => None,
            },
        decreases discriminants.len() - i,
    {
        proof {
            assert(discriminants@.skip(i as int)[0] == discriminants@[i as int]);
            assert(discriminants@.skip(i as int).skip(1) =~= discriminants@.skip(i + 1));
        }
        if discriminants[i] == value {
            proof {
                lemma_first_equal(discriminants@, value);
            }
            return Ok(i);
        }
        i += 1;
    }
    proof {
        lemma_first_equal(discriminants@, value);
    }
    Err(())
}

} // verus!
