//! What the generators read of a Rust crate: its types, signatures,
//! functions and algebraic data types, as plain values.

use vstd::prelude::*;
use vstd::string::*;
use crate::prereqs::CcInclude;
use crate::text::{decimal, push_decimal};

verus! {

#[derive(Debug, Clone, Copy, PartialEq, Eq, Structural)]
pub enum IntTy {
    I8,
    I16,
    I32,
    I64,
    I128,
    Isize,
}

#[derive(Debug, Clone, Copy, PartialEq, Eq, Structural)]
pub enum UintTy {
    U8,
    U16,
    U32,
    U64,
    U128,
    Usize,
}

#[derive(Debug, Clone, Copy, PartialEq, Eq, Structural)]
pub enum FloatTy {
    F32,
    F64,
}

/// The calling convention of a function.
#[derive(Debug)]
pub enum Abi {
    /// `"C"`, or `"C-unwind"` where `unwind` holds.
    C { unwind: bool },
    /// The convention of Rust itself.
    Rust,
    /// Any other convention, by its name.
    Other(String),
}

/// The lifetime of a reference.
#[derive(Debug)]
pub enum Lifetime {
    Static,
    /// A lifetime that the source names, without the quote.
    Named(String),
    /// A lifetime that the source leaves out, by its number within the
    /// signature, counted from one.
    Anonymous(u32),
}

/// The name under which a lifetime is written, without the quote.
pub open spec fn lifetime_name(l: Lifetime) -> Seq<char> {
    match l {
        Lifetime::Static => "static"@,
        Lifetime::Named(n) => n@,
        Lifetime::Anonymous(i) => "__anon"@ + decimal(i as nat),
    }
}

impl Lifetime {
    /// The name under which the lifetime is written, without the quote.
    pub fn name(&self) -> (r: String)
        ensures
            r@ == lifetime_name(*self),
    {
        match self {
            Lifetime::Static => String::from_str("static"),
            Lifetime::Named(n) => n.clone(),
            Lifetime::Anonymous(i) => {
                let mut s = String::from_str("__anon");
                push_decimal(&mut s, *i as u64);
                s
            },
        }
    }
}

/// A signature in which every lifetime has a name or a number.
#[derive(Debug)]
pub struct FnSig {
    pub inputs: Vec<Ty>,
    pub output: Ty,
    pub c_variadic: bool,
    pub is_unsafe: bool,
    pub abi: Abi,
}

/// What specifications read of a signature.
pub struct SigView {
    pub inputs: Seq<Ty>,
    pub output: Ty,
    pub c_variadic: bool,
    pub is_unsafe: bool,
    pub abi: Abi,
}

impl View for FnSig {
    type V = SigView;

    open spec fn view(&self) -> SigView {
        SigView {
            inputs: self.inputs@,
            output: self.output,
            c_variadic: self.c_variadic,
            is_unsafe: self.is_unsafe,
            abi: self.abi,
        }
    }
}

/// A type of the Rust crate.
#[derive(Debug)]
pub enum Ty {
    Never,
    Bool,
    Char,
    Int(IntTy),
    Uint(UintTy),
    Float(FloatTy),
    /// The empty tuple.
    Unit,
    /// A tuple. One without elements is the empty tuple, as `Unit` is.
    Tuple(Vec<Ty>),
    /// A struct, enum or union: the index of its definition in the crate's
    /// table, the number of its generic arguments, and the type as the
    /// compiler prints it.
    Adt { def: usize, generic_args: usize, display: String },
    RawPtr { pointee: Box<Ty>, mutable: bool },
    Ref { lifetime: Lifetime, referent: Box<Ty>, mutable: bool },
    /// A pointer to a function. `has_bound_vars` holds where the signature
    /// binds a lifetime of its own, which makes it generic.
    FnPtr { sig: Box<FnSig>, has_bound_vars: bool },
    Str,
    Array(Box<Ty>, u64),
    Slice(Box<Ty>),
    /// Any other kind of type, as the compiler prints it.
    Other(String),
}

pub open spec fn int_ty_name(t: IntTy) -> Seq<char> {
    match t {
        IntTy::I8 => "i8"@,
        IntTy::I16 => "i16"@,
        IntTy::I32 => "i32"@,
        IntTy::I64 => "i64"@,
        IntTy::I128 => "i128"@,
        IntTy::Isize => "isize"@,
    }
}

pub open spec fn uint_ty_name(t: UintTy) -> Seq<char> {
    match t {
        UintTy::U8 => "u8"@,
        UintTy::U16 => "u16"@,
        UintTy::U32 => "u32"@,
        UintTy::U64 => "u64"@,
        UintTy::U128 => "u128"@,
        UintTy::Usize => "usize"@,
    }
}

pub open spec fn float_ty_name(t: FloatTy) -> Seq<char> {
    match t {
        FloatTy::F32 => "f32"@,
        FloatTy::F64 => "f64"@,
    }
}

/// How a signature's calling convention is written before `fn`.
pub open spec fn abi_prefix(abi: Abi) -> Seq<char> {
    match abi {
        Abi::C { unwind } => if unwind {
            "extern \"C-unwind\" "@
        } else {
            "extern \"C\" "@
        },
        Abi::Rust => ""@,
        Abi::Other(name) => "extern \""@ + name@ + "\" "@,
    }
}

/// Whether a type is the empty tuple.
pub open spec fn is_unit(t: Ty) -> bool {
    t is Unit || (t matches Ty::Tuple(v) && v@.len() == 0)
}

/// A type as Rust source shows it.
pub open spec fn ty_display(t: Ty) -> Seq<char>
    decreases t, 0int,
{
    match t {
        Ty::Never => "!"@,
        Ty::Bool => "bool"@,
        Ty::Char => "char"@,
        Ty::Int(i) => int_ty_name(i),
        Ty::Uint(u) => uint_ty_name(u),
        Ty::Float(f) => float_ty_name(f),
        Ty::Unit => "()"@,
        Ty::Tuple(v) => if v@.len() == 1 {
            "("@ + tys_display(v@, 1) + ",)"@
        } else {
            "("@ + tys_display(v@, v@.len() as int) + ")"@
        },
        Ty::Adt { display, .. } => display@,
        Ty::RawPtr { pointee, mutable } => if mutable {
            "*mut "@ + ty_display(*pointee)
        } else {
            "*const "@ + ty_display(*pointee)
        },
        Ty::Ref { lifetime, referent, mutable } => if mutable {
            "&'"@ + lifetime_name(lifetime) + " mut "@ + ty_display(*referent)
        } else {
            "&'"@ + lifetime_name(lifetime) + " "@ + ty_display(*referent)
        },
        Ty::FnPtr { sig, .. } => if is_unit(sig.output) {
            (if sig.is_unsafe {
                "unsafe "@
            } else {
                ""@
            }) + abi_prefix(sig.abi) + "fn("@ + tys_display(
                sig.inputs@,
                sig.inputs@.len() as int,
            ) + ")"@
        } else {
            (if sig.is_unsafe {
                "unsafe "@
            } else {
                ""@
            }) + abi_prefix(sig.abi) + "fn("@ + tys_display(
                sig.inputs@,
                sig.inputs@.len() as int,
            ) + ") -> "@ + ty_display(sig.output)
        },
        Ty::Str => "str"@,
        Ty::Array(elem, len) => "["@ + ty_display(*elem) + "; "@ + decimal(len as nat) + "]"@,
        Ty::Slice(elem) => "["@ + ty_display(*elem) + "]"@,
        Ty::Other(s) => s@,
    }
}

/// The first `n` types of a list as Rust source shows them, with `", "`
/// between each two.
pub open spec fn tys_display(v: Seq<Ty>, n: int) -> Seq<char>
    decreases v, n,
{
    if n <= 0 || n > v.len() {
        Seq::empty()
    } else if n == 1 {
        ty_display(v[0])
    } else {
        tys_display(v, n - 1) + ", "@ + ty_display(v[n - 1])
    }
}

impl IntTy {
    pub fn name(&self) -> (r: &'static str)
        ensures
            r@ == int_ty_name(*self),
    {
        match self {
            IntTy::I8 => "i8",
            IntTy::I16 => "i16",
            IntTy::I32 => "i32",
            IntTy::I64 => "i64",
            IntTy::I128 => "i128",
            IntTy::Isize => "isize",
        }
    }
}

impl UintTy {
    pub fn name(&self) -> (r: &'static str)
        ensures
            r@ == uint_ty_name(*self),
    {
        match self {
            UintTy::U8 => "u8",
            UintTy::U16 => "u16",
            UintTy::U32 => "u32",
            UintTy::U64 => "u64",
            UintTy::U128 => "u128",
            UintTy::Usize => "usize",
        }
    }
}

impl FloatTy {
    pub fn name(&self) -> (r: &'static str)
        ensures
            r@ == float_ty_name(*self),
    {
        match self {
            FloatTy::F32 => "f32",
            FloatTy::F64 => "f64",
        }
    }
}

impl Abi {
    /// How the calling convention is written before `fn`.
    pub fn prefix(&self) -> (r: String)
        ensures
            r@ == abi_prefix(*self),
    {
        match self {
            Abi::C { unwind } => if *unwind {
                String::from_str("extern \"C-unwind\" ")
            } else {
                String::from_str("extern \"C\" ")
            },
            Abi::Rust => String::from_str(""),
            Abi::Other(name) => {
                let mut s = String::from_str("extern \"");
                s.append(name.as_str());
                s.append("\" ");
                s
            },
        }
    }

    /// Whether the convention is `"C"` or `"C-unwind"`.
    pub fn is_c(&self) -> (r: bool)
        ensures
            r == (*self is C),
    {
        match self {
            Abi::C { .. } => true,
            _ => false,
        }
    }
}

impl Ty {
    /// Whether the type is the empty tuple.
    pub fn is_unit(&self) -> (r: bool)
        ensures
            r == is_unit(*self),
    {
        match self {
            Ty::Unit => true,
            Ty::Tuple(v) => v.len() == 0,
            _ => false,
        }
    }

    /// The type as Rust source shows it.
    pub fn display(&self) -> (r: String)
        ensures
            r@ == ty_display(*self),
        decreases self, 0int,
    {
        match self {
            Ty::Never => String::from_str("!"),
            Ty::Bool => String::from_str("bool"),
            Ty::Char => String::from_str("char"),
            Ty::Int(i) => String::from_str(i.name()),
            Ty::Uint(u) => String::from_str(u.name()),
            Ty::Float(f) => String::from_str(f.name()),
            Ty::Unit => String::from_str("()"),
            Ty::Tuple(v) => {
                let mut s = String::from_str("(");
                if v.len() == 1 {
                    s.append(display_types(v, 1).as_str());
                    s.append(",)");
                } else {
                    s.append(display_types(v, v.len()).as_str());
                    s.append(")");
                }
                s
            },
            Ty::Adt { display, .. } => display.clone(),
            Ty::RawPtr { pointee, mutable } => {
                let mut s = if *mutable {
                    String::from_str("*mut ")
                } else {
                    String::from_str("*const ")
                };
                s.append(pointee.display().as_str());
                s
            },
            Ty::Ref { lifetime, referent, mutable } => {
                let mut s = String::from_str("&'");
                s.append(lifetime.name().as_str());
                if *mutable {
                    s.append(" mut ");
                } else {
                    s.append(" ");
                }
                s.append(referent.display().as_str());
                s
            },
            Ty::FnPtr { sig, .. } => {
                let mut s = if sig.is_unsafe {
                    String::from_str("unsafe ")
                } else {
                    String::from_str("")
                };
                s.append(sig.abi.prefix().as_str());
                s.append("fn(");
                s.append(display_types(&sig.inputs, sig.inputs.len()).as_str());
                if sig.output.is_unit() {
                    s.append(")");
                } else {
                    s.append(") -> ");
                    s.append(sig.output.display().as_str());
                }
                s
            },
            Ty::Str => String::from_str("str"),
            Ty::Array(elem, len) => {
                let mut s = String::from_str("[");
                s.append(elem.display().as_str());
                s.append("; ");
                push_decimal(&mut s, *len);
                s.append("]");
                s
            },
            Ty::Slice(elem) => {
                let mut s = String::from_str("[");
                s.append(elem.display().as_str());
                s.append("]");
                s
            },
            Ty::Other(s) => s.clone(),
        }
    }
}

/// The first `n` types of a list as Rust source shows them.
pub fn display_types(v: &Vec<Ty>, n: usize) -> (r: String)
    requires
        n <= v.len(),
    ensures
        r@ == tys_display(v@, n as int),
    decreases v, n,
{
    if n == 0 {
        let s = String::new();
        assert(s@ =~= Seq::<char>::empty());
        s
    } else if n == 1 {
        proof {
            vstd::std_specs::vec::axiom_vec_index_decreases(*v, 0);
        }
        v[0].display()
    } else {
        proof {
            vstd::std_specs::vec::axiom_vec_index_decreases(*v, n - 1);
        }
        let mut s = display_types(v, n - 1);
        s.append(", ");
        s.append(v[n - 1].display().as_str());
        s
    }
}

/// An attribute that may stand bare or carry a text.
#[derive(Debug)]
pub enum TextAttr {
    Absent,
    Bare,
    With(String),
}

/// The size and alignment of a type, in bytes.
#[derive(Debug, Clone, Copy, PartialEq, Eq, Structural)]
pub struct Layout {
    pub size: u64,
    pub align: u64,
    pub is_sized: bool,
}

#[derive(Debug, Clone, Copy, PartialEq, Eq, Structural)]
pub enum AdtKind {
    Struct,
    Enum,
    Union,
}

/// A field of a struct or union.
#[derive(Debug)]
pub struct FieldDef {
    pub name: String,
    pub ty: Ty,
    pub is_public: bool,
    /// Where the field starts within its owner, in bytes.
    pub offset: u64,
    /// The size of the field's type in bytes, or why it has no layout.
    pub size: Result<u64, String>,
    pub doc_comments: Vec<String>,
    /// Where the field is defined, as comments show it.
    pub source_location: String,
    pub deprecated: TextAttr,
}

/// A struct, enum or union.
#[derive(Debug)]
pub struct AdtDef {
    pub kind: AdtKind,
    /// The C++ type that the type was made from, where it says so.
    pub cc_type: Option<String>,
    pub generic_params: usize,
    /// Whether the type is `core::ffi::c_void`.
    pub is_c_void: bool,
    /// The layout, or why the type has none.
    pub layout: Result<Layout, String>,
    pub needs_drop: bool,
    pub is_copy: bool,
    pub is_unpin: bool,
    pub implements_default: bool,
    pub implements_clone: bool,
    pub repr_c: bool,
    pub repr_packed: bool,
    pub must_use: TextAttr,
    pub deprecated: TextAttr,
    /// The fields in the order of the source; empty for an enum.
    pub fields: Vec<FieldDef>,
    /// The functions of the type's inherent impls, in the order of the
    /// source, by their indices in the crate's table.
    pub impl_items: Vec<ImplItem>,
    /// The linker symbols of the trait methods that special member
    /// functions call.
    pub default_symbol: String,
    pub clone_symbol: String,
    pub clone_from_symbol: String,
    pub drop_symbol: String,
}

/// An item of an inherent impl.
#[derive(Debug)]
pub enum ImplItem {
    /// A function, by its index in the crate's table.
    Fn(usize),
    /// Anything else, by the name of its kind.
    Other { def: usize, kind: String },
}

/// A function.
#[derive(Debug)]
pub struct FnDef {
    /// The name to use in C++ in place of the function's own, if one is set.
    pub cpp_name: Option<String>,
    pub generic_params: usize,
    pub sig: FnSig,
    /// The names of the parameters; empty for one that has no name.
    pub param_names: Vec<String>,
    /// The symbol under which the function is linked.
    pub symbol_name: String,
    pub no_mangle: bool,
    pub export_name: bool,
    pub must_use: TextAttr,
    pub deprecated: TextAttr,
    /// The deprecation of the impl that holds the function, if any.
    pub parent_deprecated: TextAttr,
    /// For a function of an inherent impl, the index of the type.
    pub impl_of: Option<usize>,
}

/// What an item is.
#[derive(Debug)]
pub enum DefKind {
    Fn(FnDef),
    Adt(AdtDef),
    /// `type Name = ty;`
    TyAlias(Ty),
    /// `use path as name;`
    Use(UseDef),
    Impl,
    Mod,
    /// Any other kind of item, by the name of its kind.
    Other(String),
}

/// How a `use` item names what it imports.
#[derive(Debug, Clone, Copy, PartialEq, Eq, Structural)]
pub enum UseKind {
    Single,
    Glob,
    ListStem,
}

/// What a `use` item resolves to.
#[derive(Debug)]
pub enum UseTarget {
    /// A function, by its index in the crate's table.
    Fn(usize),
    /// A struct or an enum, by its index and with its type.
    Type(usize, Ty),
    /// Any other definition, as messages show it.
    OtherDef(String),
    /// Something that is no definition, as messages show it.
    NotADef(String),
}

#[derive(Debug)]
pub struct UseDef {
    pub kind: UseKind,
    /// What the path resolves to, in each namespace in which it resolves.
    pub targets: Vec<UseTarget>,
    /// How messages show all that the path resolves to.
    pub targets_display: String,
}

/// A definition: an item of the crate, or a type of another crate that the
/// crate mentions.
#[derive(Debug)]
pub struct Def {
    /// The crate that holds the definition.
    pub krate: String,
    /// Whether that crate is the one being bound.
    pub is_local: bool,
    /// Whether the definition is an item of a module. A function or a
    /// constant of an impl is none: it is bound with its type.
    pub is_item: bool,
    /// The modules on the way from the crate's root to the item.
    pub mod_path: Vec<String>,
    /// The item's name; `None` for items that have none.
    pub name: Option<String>,
    /// The item's path as messages show it.
    pub path_display: String,
    /// Whether the item is public under its own path, not only through a
    /// re-export.
    pub is_directly_public: bool,
    pub doc_comments: Vec<String>,
    /// Where the item is defined, as comments show it.
    pub source_location: String,
    /// The deprecation of the module that holds the item, if any.
    pub module_deprecated: TextAttr,
    /// The index of the holding module in the crate's table; `None` at the
    /// crate's root.
    pub parent_module: Option<usize>,
    pub kind: DefKind,
}

/// The headers that hold the bindings of another crate.
#[derive(Debug)]
pub struct CrateIncludes {
    pub crate_name: String,
    pub includes: Vec<CcInclude>,
}

/// What the compiler says of the layout of `char`.
#[derive(Debug, Clone, Copy)]
pub struct CharLayout {
    pub size: u64,
    pub align: u64,
    /// Whether a `char` is passed as one integer of 32 bits without a sign.
    pub is_unsigned_int32: bool,
}

/// Whether `char` is laid out as the C++ type that stands for it takes for
/// granted: four bytes, aligned to four, passed as an unsigned integer.
pub open spec fn char_is_u32(l: CharLayout) -> bool {
    l.size == 4 && l.align == 4 && l.is_unsigned_int32
}

impl CharLayout {
    /// Whether `char` is laid out as an unsigned integer of 32 bits.
    pub fn is_u32(&self) -> (r: bool)
        ensures
            r == char_is_u32(*self),
    {
        self.size == 4 && self.align == 4 && self.is_unsigned_int32
    }
}

/// A crate to bind.
#[derive(Debug)]
pub struct Crate {
    pub name: String,
    /// The layout of `char` under the compiler that built the crate.
    pub char_layout: CharLayout,
    /// Whether the crate unwinds on panic; only aborting crates are bound.
    pub panic_unwind: bool,
    /// The definitions, those of the crate itself in the order of the source.
    pub defs: Vec<Def>,
    /// The format of the path of a support header, in which `{header}`
    /// stands for the header's name.
    pub support_path_format: String,
    /// The headers of the crates that the crate depends on.
    pub dependencies: Vec<CrateIncludes>,
}

} // verus!
