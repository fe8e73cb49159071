//! The codec for a fixed-width bit-string column of a PostgreSQL table.
//!
//! A set is stored as one byte, its seven bits as they stand. It is read back
//! from the first byte that the column holds, or as the empty set where the
//! column holds no byte. Any other column type is refused with an
//! [`InvalidType`] that names it.

use crate::weekdays::Weekdays;
use bytes::BytesMut;
use tokio_postgres::types::{IsNull, Type};
use vstd::prelude::*;
use vstd::string::StringExecFns;

verus! {

/// `tokio_postgres::types::Type`: the type of a column. Nothing inside it is
/// visible to the proofs.
#[verifier::external_type_specification]
#[verifier::external_body]
pub struct ExType(tokio_postgres::types::Type);

/// `tokio_postgres::types::IsNull`: whether an encoded value is NULL. An enum of
/// `Yes` and `No` without fields, read as it stands.
#[verifier::external_type_specification]
pub struct ExIsNull(tokio_postgres::types::IsNull);

/// `bytes::BytesMut`: a growable buffer of bytes. Nothing inside it is visible
/// to the proofs but through [`buffer_bytes`].
#[verifier::external_type_specification]
#[verifier::external_body]
pub struct ExBytesMut(bytes::BytesMut);

/// The bytes that a buffer holds, first to last.
pub uninterp spec fn buffer_bytes(buffer: BytesMut) -> Seq<u8>;

/// Whether a column type is the bit-string type: what `Type`'s `==` answers
/// against `Type::BIT`.
pub uninterp spec fn column_is_bit(ty: Type) -> bool;

/// The name of a column type: what `Type::name` returns.
pub uninterp spec fn column_name(ty: Type) -> Seq<char>;

/// The schema of a column type: what `Type::schema` returns.
pub uninterp spec fn column_schema(ty: Type) -> Seq<char>;

/// A name as the database writes it for a schema: the name alone in the
/// schemas `public` and `pg_catalog`, else the schema, a dot and the name.
pub open spec fn qualified_name(schema: Seq<char>, name: Seq<char>) -> Seq<char> {
    if schema == "public"@ || schema == "pg_catalog"@ {
        name
    } else {
        schema + "."@ + name
    }
}

/// A column type as the database writes it.
pub open spec fn column_text(ty: Type) -> Seq<char> {
    qualified_name(column_schema(ty), column_name(ty))
}

/// A qualified name ends with the name, and so does any text that ends with
/// the qualified name.
pub proof fn lemma_qualified_name_ends_with_name(
    opening: Seq<char>,
    schema: Seq<char>,
    name: Seq<char>,
)
    ensures
        name.is_suffix_of(qualified_name(schema, name)),
        name.is_suffix_of(opening + qualified_name(schema, name)),
{
    let qualified = qualified_name(schema, name);
    let whole = opening + qualified;
    assert(qualified.subrange(qualified.len() - name.len(), qualified.len() as int) =~= name);
    assert(whole.subrange(whole.len() - name.len(), whole.len() as int) =~= name);
}

/// `Type`'s `==` against `Type::BIT`. The answer depends on the column type
/// alone and goes by the name [`column_is_bit`]; nothing else is claimed of it.
#[verifier::external_body]
fn is_bit_type(ty: &Type) -> (r: bool)
    ensures
        r == column_is_bit(*ty),
{
    *ty == Type::BIT
}

/// `Type`'s `Display`, which writes what `Type::schema` returns and a dot,
/// unless that is `public` or `pg_catalog`, and then what `Type::name`
/// returns. Nothing is claimed of what the schema and the name of a given
/// type are.
#[verifier::external_body]
fn text_of_type(ty: &Type) -> (text: String)
    ensures
        text@ == qualified_name(column_schema(*ty), column_name(*ty)),
{
    ty.to_string()
}

/// `BytesMut::len`: how many bytes the buffer holds.
#[verifier::external_body]
fn buffer_len(out: &BytesMut) -> (n: usize)
    ensures
        n == buffer_bytes(*out).len(),
{
    out.len()
}

/// `BytesMut::extend_from_slice`: appends `data` to the buffer and leaves what
/// it held in place. It is not called where the new length would pass `usize`.
#[verifier::external_body]
fn buffer_extend(out: &mut BytesMut, data: &[u8])
    requires
        buffer_bytes(*old(out)).len() + data@.len() <= usize::MAX,
    ensures
        buffer_bytes(*final(out)) == buffer_bytes(*old(out)) + data@,
{
    out.extend_from_slice(data);
}

/// A column type that cannot hold a set of days.
#[derive(Debug, PartialEq, Eq)]
pub struct InvalidType {
    /// The refused type, as the database writes it.
    pub rejected: String,
}

impl Clone for InvalidType {
    /// An error that names the same type.
    fn clone(&self) -> (e: InvalidType)
        ensures
            e.rejected@ == self.rejected@,
    {
        InvalidType { rejected: self.rejected.clone() }
    }
}

impl InvalidType {
    /// The text of the error: a fixed opening, then the refused type.
    pub open spec fn spec_message(&self) -> Seq<char> {
        "Invalid type for Weekdays: "@ + self.rejected@
    }

    /// The error for the column type written `rejected`.
    pub fn new(rejected: String) -> (e: InvalidType)
        ensures
            e.rejected == rejected,
    {
        InvalidType { rejected }
    }

    /// The text of the error, which names the refused type.
    pub fn message(&self) -> (text: String)
        ensures
            text@ == self.spec_message(),
    {
        let mut text = String::from_str("Invalid type for Weekdays: ");
        text.append(self.rejected.as_str());
        text
    }

    /// The text of the error, which names the refused type.
    pub fn to_string(&self) -> (text: String)
        ensures
            text@ == self.spec_message(),
    {
        self.message()
    }
}

impl Weekdays {
    /// The set that a bit-string column stands for: that of its first byte,
    /// the eighth bit dropped, or the empty set where it holds no byte.
    pub open spec fn spec_from_bit_field(raw: Seq<u8>) -> Weekdays {
        if raw.len() == 0 {
            Weekdays::spec_new(0)
        } else {
            Weekdays::spec_new(raw[0])
        }
    }

    /// Reads a set from what a bit-string column holds. No bytes give the
    /// empty set; bytes after the first are not read.
    pub fn from_bit_field(raw: &[u8]) -> (r: Weekdays)
        ensures
            r == Self::spec_from_bit_field(raw@),
    {
        match raw.first() {
            Some(byte) => Weekdays::new(*byte),
            None => Weekdays::new(0),
        }
    }

    /// The one byte that stores the set in a bit-string column.
    pub fn to_bit_field(&self) -> (field: [u8; 1])
        ensures
            field@ == seq![self.spec_bits()],
    {
        let field: [u8; 1] = [self.bits()];
        assert(field@ =~= seq![self.spec_bits()]);
        field
    }

    /// Reads a set for a column that is of the bit-string type (`is_bit`) or
    /// of another: the set of [`Weekdays::from_bit_field`] for the first, and
    /// nothing for any other.
    pub fn decode_column(is_bit: bool, raw: &[u8]) -> (r: Option<Weekdays>)
        ensures
            is_bit ==> r == Some(Self::spec_from_bit_field(raw@)),
            !is_bit ==> r is None,
    {
        if is_bit {
            Some(Weekdays::from_bit_field(raw))
        } else {
            None
        }
    }

    /// The bytes that store the set in a column that is of the bit-string type
    /// (`is_bit`) or of another: the one byte of [`Weekdays::to_bit_field`] for
    /// the first, and nothing for any other.
    pub fn encode_column(&self, is_bit: bool) -> (r: Option<[u8; 1]>)
        ensures
            is_bit ==> (r matches Some(field) && field@ == seq![self.spec_bits()]),
            !is_bit ==> r is None,
    {
        if is_bit {
            Some(self.to_bit_field())
        } else {
            None
        }
    }

    /// Whether a column of type `ty` can hold a set of days: whether `ty` is
    /// the bit-string type. It is true of exactly the types that
    /// [`Weekdays::from_sql`] reads and [`Weekdays::to_sql`] writes.
    pub fn accepts(ty: &Type) -> (r: bool)
        ensures
            r == column_is_bit(*ty),
    {
        is_bit_type(ty)
    }

    /// Reads a set from a column of type `ty`. Where `ty` is the bit-string
    /// type, the result is the set that the column holds, as
    /// [`Weekdays::from_bit_field`] reads it: the empty set where it holds no
    /// byte. Any other type is refused with an error that names `ty` as the
    /// database writes it, so that the error's text ends with the type's name.
    pub fn from_sql(ty: &Type, raw: &[u8]) -> (r: Result<Weekdays, InvalidType>)
        ensures
            column_is_bit(*ty) ==> r == Ok::<Weekdays, InvalidType>(
                Self::spec_from_bit_field(raw@),
            ),
            !column_is_bit(*ty) ==> (r matches Err(refusal) && refusal.rejected@ == column_text(
                *ty,
            ) && column_name(*ty).is_suffix_of(refusal.spec_message())),
    {
        match Weekdays::decode_column(is_bit_type(ty), raw) {
            Some(days) => Ok(days),
            None => {
                let refusal = InvalidType::new(text_of_type(ty));
                proof {
                    lemma_qualified_name_ends_with_name(
                        "Invalid type for Weekdays: "@,
                        column_schema(*ty),
                        column_name(*ty),
                    );
                }
                Err(refusal)
            },
        }
    }

    /// Writes the set to `out` for a column of type `ty`. Where `ty` is the
    /// bit-string type, the one byte of the set is appended to what `out`
    /// held and the value is not NULL; `out` must have room for that byte.
    /// Any other type is refused with an error that names `ty` as the
    /// database writes it, so that the error's text ends with the type's
    /// name, and `out` is left as it was.
    pub fn to_sql(&self, ty: &Type, out: &mut BytesMut) -> (r: Result<IsNull, InvalidType>)
        requires
            column_is_bit(*ty) ==> buffer_bytes(*old(out)).len() < usize::MAX,
        ensures
            column_is_bit(*ty) ==> (r matches Ok(null) && null is No && buffer_bytes(*final(out))
                == buffer_bytes(*old(out)).push(self.spec_bits())),
            !column_is_bit(*ty) ==> (r matches Err(refusal) && refusal.rejected@ == column_text(
                *ty,
            ) && column_name(*ty).is_suffix_of(refusal.spec_message()) && buffer_bytes(
                *final(out),
            ) == buffer_bytes(*old(out))),
    {
        match self.encode_column(is_bit_type(ty)) {
            Some(field) => {
                buffer_extend(out, field.as_slice());
                proof {
                    assert(buffer_bytes(*out) =~= buffer_bytes(*old(out)).push(
                        self.spec_bits(),
                    ));
                }
                Ok(IsNull::No)
            },
            None => {
                let refusal = InvalidType::new(text_of_type(ty));
                proof {
                    lemma_qualified_name_ends_with_name(
                        "Invalid type for Weekdays: "@,
                        column_schema(*ty),
                        column_name(*ty),
                    );
                }
                Err(refusal)
            },
        }
    }

    /// Writes the set to `out` as [`Weekdays::to_sql`] does, for any buffer.
    /// The one case in which nothing is done and `None` is returned is a
    /// bit-string column with a buffer that has no room for one more byte.
    pub fn try_to_sql(&self, ty: &Type, out: &mut BytesMut) -> (r: Option<
        Result<IsNull, InvalidType>,
    >)
        ensures
            r is None <==> column_is_bit(*ty) && buffer_bytes(*old(out)).len() >= usize::MAX,
            r is None ==> buffer_bytes(*final(out)) == buffer_bytes(*old(out)),
            r is Some && column_is_bit(*ty) ==> (r matches Some(Ok(null)) && null is No
                && buffer_bytes(*final(out)) == buffer_bytes(*old(out)).push(self.spec_bits())),
            !column_is_bit(*ty) ==> (r matches Some(Err(refusal)) && refusal.rejected@
                == column_text(*ty) && column_name(*ty).is_suffix_of(refusal.spec_message())
                && buffer_bytes(*final(out)) == buffer_bytes(*old(out))),
    {
        if buffer_len(out) < usize::MAX || !is_bit_type(ty) {
            Some(self.to_sql(ty, out))
        } else {
            None
        }
    }
}

} // verus!
