//! Building a traversable `Shape` out of a raw declaration, refusing at
//! generation time everything the protocol does not support.

use vstd::prelude::*;
use vstd::string::StringExecFns;
use crate::err::Error;
use crate::field_type::{FieldType, FieldTypeView, TypeDecl, TypeDeclView};
use crate::modifier::{SourceVisibility, map_visibility, map_visibility_spec};
use crate::shape::{Field, FieldView, Shape, ShapeView};

verus! {

/// What kind of declaration a shape source reports: a struct, an enum,
/// or a union. Only structs can be translated.
#[derive(Clone, Copy, PartialEq, Eq, Structural, Debug)]
pub enum DeclKind {
    Struct,
    Enum,
    Union,
}

/// One field as the shape source reports it: its visibility, its name —
/// absent for a tuple-positional field — and its declared type.
#[derive(Debug)]
pub struct FieldDecl {
    pub vis: SourceVisibility,
    pub name: Option<String>,
    pub ty: TypeDecl,
}

/// The mathematical model of a `FieldDecl`.
pub struct FieldDeclView {
    pub vis: SourceVisibility,
    pub name: Option<Seq<char>>,
    pub ty: TypeDeclView,
}

impl View for FieldDecl {
    type V = FieldDeclView;

    open spec fn view(&self) -> FieldDeclView {
        FieldDeclView {
            vis: self.vis,
            name: match self.name {
                Option::Some(n) => Option::Some(n@),
                Option::None => Option::None,
            },
            ty: self.ty@,
        }
    }
}

/// A whole declaration as the shape source reports it, before any
/// validation.
#[derive(Debug)]
pub struct ShapeDecl {
    pub kind: DeclKind,
    pub vis: SourceVisibility,
    pub name: String,
    pub fields: Vec<FieldDecl>,
}

/// The mathematical model of a `ShapeDecl`.
pub struct ShapeDeclView {
    pub kind: DeclKind,
    pub vis: SourceVisibility,
    pub name: Seq<char>,
    pub fields: Seq<FieldDeclView>,
}

impl View for ShapeDecl {
    type V = ShapeDeclView;

    open spec fn view(&self) -> ShapeDeclView {
        ShapeDeclView {
            kind: self.kind,
            vis: self.vis,
            name: self.name@,
            fields: self.fields@.map_values(|f: FieldDecl| f@),
        }
    }
}

/// Why the translator refused to produce a translator for a declaration.
/// Each variant names the offending construct.
#[derive(Debug, PartialEq)]
pub enum GenerationError {
    UnsupportedShape { shape: String, kind: DeclKind },
    TupleField { shape: String, index: usize },
    UnmappedFieldType { shape: String, field: String },
}

/// The mathematical model of a `GenerationError`.
pub enum GenerationErrorView {
    UnsupportedShape { shape: Seq<char>, kind: DeclKind },
    TupleField { shape: Seq<char>, index: int },
    UnmappedFieldType { shape: Seq<char>, field: Seq<char> },
}

impl View for GenerationError {
    type V = GenerationErrorView;

    open spec fn view(&self) -> GenerationErrorView {
        match self {
            GenerationError::UnsupportedShape { shape, kind } => (
            GenerationErrorView::UnsupportedShape { shape: shape@, kind: *kind }),
            GenerationError::TupleField { shape, index } => (
            GenerationErrorView::TupleField { shape: shape@, index: *index as int }),
            GenerationError::UnmappedFieldType { shape, field } => (
            GenerationErrorView::UnmappedFieldType { shape: shape@, field: field@ }),
        }
    }
}

impl Error for GenerationError {
    fn message(&self) -> (m: String)
        ensures
            m@.len() > 0,
            (self matches GenerationError::UnsupportedShape { shape, .. } ==> m@
                == "cannot generate a translator: not a struct: "@ + shape@),
            (self matches GenerationError::TupleField { shape, .. } ==> m@
                == "cannot generate a translator: tuple-positional field in "@ + shape@),
            (self matches GenerationError::UnmappedFieldType { shape, field } ==> m@
                == "cannot generate a translator: no descriptor for the type of field "@ + field@
                + " in "@ + shape@),
    {
        match self {
            GenerationError::UnsupportedShape { shape, kind: _ } => {
                proof {
                    reveal_strlit("cannot generate a translator: not a struct: ");
                }
                let mut m = "cannot generate a translator: not a struct: ".to_owned();
                m.append(shape.as_str());
                m
            },
            GenerationError::TupleField { shape, index: _ } => {
                proof {
                    reveal_strlit("cannot generate a translator: tuple-positional field in ");
                }
                let mut m = "cannot generate a translator: tuple-positional field in ".to_owned();
                m.append(shape.as_str());
                m
            },
            GenerationError::UnmappedFieldType { shape, field } => {
                proof {
                    reveal_strlit("cannot generate a translator: no descriptor for the type of field ");
                    reveal_strlit(" in ");
                }
                let mut m =
                "cannot generate a translator: no descriptor for the type of field ".to_owned();
                m.append(field.as_str());
                m.append(" in ");
                m.append(shape.as_str());
                m
            },
        }
    }
}

/// The names of the primitive integer types, which all map to the
/// numeric descriptor.
pub open spec fn numeric_name(s: Seq<char>) -> bool {
    ||| s == "u8"@
    ||| s == "u16"@
    ||| s == "u32"@
    ||| s == "u64"@
    ||| s == "u128"@
    ||| s == "usize"@
    ||| s == "i8"@
    ||| s == "i16"@
    ||| s == "i32"@
    ||| s == "i64"@
    ||| s == "i128"@
    ||| s == "isize"@
}

/// The names of the textual primitive types, which all map to the text
/// descriptor.
pub open spec fn text_name(s: Seq<char>) -> bool {
    ||| s == "String"@
    ||| s == "str"@
    ||| s == "char"@
}

/// The descriptor a path type maps to: the well-known scalar names fold
/// into the numeric, boolean and text descriptors, and any other path
/// keeps its own name.
pub open spec fn map_field_type_spec(t: TypeDeclView) -> FieldTypeView
    recommends
        t is Path,
{
    match t {
        TypeDeclView::Path(name) => if numeric_name(name) {
            FieldTypeView::Numeric
        } else if name == "bool"@ {
            FieldTypeView::Boolean
        } else if text_name(name) {
            FieldTypeView::Text
        } else {
            FieldTypeView::Named(name)
        },
        TypeDeclView::Other => arbitrary(),
    }
}

fn str_eq(a: &str, b: &str) -> (r: bool)
    ensures
        r == (a@ == b@),
{
    let x = a.to_owned();
    let y = b.to_owned();
    x == y
}

fn is_numeric_name(name: &str) -> (r: bool)
    ensures
        r == numeric_name(name@),
{
    str_eq(name, "u8") || str_eq(name, "u16") || str_eq(name, "u32") || str_eq(name, "u64")
        || str_eq(name, "u128") || str_eq(name, "usize") || str_eq(name, "i8") || str_eq(
        name,
        "i16",
    ) || str_eq(name, "i32") || str_eq(name, "i64") || str_eq(name, "i128") || str_eq(
        name,
        "isize",
    )
}

fn is_text_name(name: &str) -> (r: bool)
    ensures
        r == text_name(name@),
{
    str_eq(name, "String") || str_eq(name, "str") || str_eq(name, "char")
}

/// Maps a field's declared type to its descriptor. The mapping covers
/// every path type — well-known scalars fold into the scalar
/// descriptors, all other paths keep their name — and covers nothing
/// else: a type of any other form has no descriptor.
pub fn map_field_type(ty: &TypeDecl) -> (r: Option<FieldType>)
    ensures
        r is Some <==> ty@ is Path,
        (r matches Option::Some(ft) ==> ft@ == map_field_type_spec(ty@)),
{
    match ty {
        TypeDecl::Path(name) => {
            if is_numeric_name(name.as_str()) {
                Option::Some(FieldType::Numeric)
            } else if str_eq(name.as_str(), "bool") {
                Option::Some(FieldType::Boolean)
            } else if is_text_name(name.as_str()) {
                Option::Some(FieldType::Text)
            } else {
                Option::Some(FieldType::Named(name.clone()))
            }
        },
        TypeDecl::Other => Option::None,
    }
}

/// A field the translator can handle: it has a name, and its declared
/// type has a descriptor.
pub open spec fn field_accepted(f: FieldDeclView) -> bool {
    &&& f.name is Some
    &&& f.ty is Path
}

/// A declaration the translator accepts: a struct whose every field is
/// named and mappable.
pub open spec fn decl_accepted(d: ShapeDeclView) -> bool {
    &&& d.kind is Struct
    &&& (forall|i: int| 0 <= i < d.fields.len() ==> field_accepted(#[trigger] d.fields[i]))
}

/// The shape field generated from an accepted field declaration.
pub open spec fn generated_field(f: FieldDeclView) -> FieldView
    recommends
        field_accepted(f),
{
    FieldView {
        modifier: map_visibility_spec(f.vis),
        name: match f.name {
            Option::Some(n) => n,
            Option::None => arbitrary(),
        },
        ty: map_field_type_spec(f.ty),
    }
}

/// The shape fields generated from a sequence of accepted field
/// declarations, in order.
pub open spec fn generated_fields(s: Seq<FieldDeclView>) -> Seq<FieldView> {
    s.map_values(|f: FieldDeclView| generated_field(f))
}

/// The shape generated from an accepted declaration: the mapped
/// visibility, the name as declared, and the fields in declaration
/// order.
pub open spec fn generated_shape(d: ShapeDeclView) -> ShapeView
    recommends
        decl_accepted(d),
{
    ShapeView {
        modifier: map_visibility_spec(d.vis),
        name: d.name,
        fields: generated_fields(d.fields),
    }
}

/// The position of the first field the translator cannot handle.
pub open spec fn first_rejected(fields: Seq<FieldDeclView>) -> int
    decreases fields.len(),
{
    if fields.len() == 0 {
        0
    } else if !field_accepted(fields[0]) {
        0
    } else {
        1 + first_rejected(fields.drop_first())
    }
}

proof fn lemma_first_rejected(fields: Seq<FieldDeclView>, i: int)
    requires
        0 <= i < fields.len(),
        forall|k: int| 0 <= k < i ==> field_accepted(#[trigger] fields[k]),
        !field_accepted(fields[i]),
    ensures
        first_rejected(fields) == i,
    decreases i,
{
    if i > 0 {
        assert(field_accepted(fields[0]));
        let rest = fields.drop_first();
        assert(forall|k: int| 0 <= k < i - 1 ==> fields[k + 1] == #[trigger] rest[k]);
        assert(rest[i - 1] == fields[i]);
        lemma_first_rejected(rest, i - 1);
    }
}

/// The diagnostic the translator reports for a refused declaration: the
/// unsupported declaration kind, or the first offending field.
pub open spec fn generation_error_of(d: ShapeDeclView) -> GenerationErrorView
    recommends
        !decl_accepted(d),
{
    if !(d.kind is Struct) {
        GenerationErrorView::UnsupportedShape { shape: d.name, kind: d.kind }
    } else {
        let i = first_rejected(d.fields);
        let f = d.fields[i];
        if f.name is None {
            GenerationErrorView::TupleField { shape: d.name, index: i }
        } else {
            GenerationErrorView::UnmappedFieldType {
                shape: d.name,
                field: match f.name {
                    Option::Some(n) => n,
                    Option::None => arbitrary(),
                },
            }
        }
    }
}

/// The shape-to-protocol translator's generation step: statically checks
/// a declaration and produces its traversable `Shape`.
///
/// It succeeds exactly on structs whose every field is named and has a
/// mappable type; the produced shape carries the mapped visibilities,
/// the declared name, and the fields in declaration order. Anything else
/// — an enum or union, a tuple-positional field, a field type without a
/// descriptor — is refused at generation time with a diagnostic naming
/// the offending construct, the first one in declaration order.
pub fn generate(decl: &ShapeDecl) -> (r: Result<Shape, GenerationError>)
    ensures
        r is Ok <==> decl_accepted(decl@),
        (r matches Result::Ok(s) ==> s@ == generated_shape(decl@)),
        (r matches Result::Err(e) ==> e@ == generation_error_of(decl@)),
{
    match decl.kind {
        DeclKind::Struct => {},
        DeclKind::Enum | DeclKind::Union => {
            return Err(
                GenerationError::UnsupportedShape { shape: decl.name.clone(), kind: decl.kind },
            );
        },
    }
    let n = decl.fields.len();
    let mut fields: Vec<Field> = Vec::new();
    let mut i: usize = 0;
    while i < n
        invariant
            n == decl.fields@.len(),
            i <= n,
            decl@.kind is Struct,
            fields@.len() == i,
            forall|k: int| 0 <= k < i ==> field_accepted(#[trigger] decl@.fields[k]),
            crate::shape::fields_view(fields@) == generated_fields(decl@.fields.take(i as int)),
        decreases n - i,
    {
        let fd = &decl.fields[i];
        proof {
            assert(decl@.fields[i as int] == decl.fields@[i as int]@);
        }
        let name = match &fd.name {
            Option::Some(nm) => nm.clone(),
            Option::None => {
                proof {
                    assert(!field_accepted(decl@.fields[i as int]));
                    lemma_first_rejected(decl@.fields, i as int);
                }
                return Err(
                    GenerationError::TupleField { shape: decl.name.clone(), index: i },
                );
            },
        };
        let ft = match map_field_type(&fd.ty) {
            Option::Some(ft) => ft,
            Option::None => {
                proof {
                    assert(!field_accepted(decl@.fields[i as int]));
                    lemma_first_rejected(decl@.fields, i as int);
                }
                return Err(
                    GenerationError::UnmappedFieldType { shape: decl.name.clone(), field: name },
                );
            },
        };
        let ghost old_fields = fields@;
        fields.push(Field { modifier: map_visibility(fd.vis), name, ty: ft });
        proof {
            let dfs = decl@.fields;
            assert(dfs.take(i as int + 1) =~= dfs.take(i as int).push(dfs[i as int]));
            assert(fields@[i as int]@.modifier == generated_field(dfs[i as int]).modifier);
            assert(fields@[i as int]@.name == generated_field(dfs[i as int]).name);
            assert(fields@[i as int]@.ty == generated_field(dfs[i as int]).ty);
            assert(fields@[i as int]@ == generated_field(dfs[i as int]));
            assert forall|k: int| 0 <= k < fields@.len() implies crate::shape::fields_view(
                fields@,
            )[k] == generated_fields(dfs.take(i as int + 1))[k] by {
                assert(crate::shape::fields_view(fields@)[k] == fields@[k]@);
                assert(generated_fields(dfs.take(i as int + 1))[k] == generated_field(
                    dfs.take(i as int + 1)[k],
                ));
                if k < i as int {
                    assert(crate::shape::fields_view(old_fields)[k] == old_fields[k]@);
                    assert(generated_fields(dfs.take(i as int))[k] == generated_field(
                        dfs.take(i as int)[k],
                    ));
                    assert(fields@[k] == old_fields[k]);
                    assert(dfs.take(i as int)[k] == dfs.take(i as int + 1)[k]);
                }
            }
            assert(crate::shape::fields_view(fields@) =~= generated_fields(dfs.take(i as int + 1)));
        }
        i = i + 1;
    }
    let shape = Shape { modifier: map_visibility(decl.vis), name: decl.name.clone(), fields };
    proof {
        assert(decl@.fields.take(n as int) =~= decl@.fields);
        assert(shape@.fields =~= generated_shape(decl@).fields);
    }
    Ok(shape)
}

} // verus!
