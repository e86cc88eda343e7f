//! Drawing values of the primitive integer types.

use crate::decimal::to_decimal;
use crate::marshalling::{int_text, Value, ValueV};
use crate::syntax::{exprs_view, types_view, Expr, ExprV};
use vstd::prelude::*;
use vstd::string::StringExecFns;

verus! {

/// The unsigned integer types.
#[derive(Clone, Copy, Debug, PartialEq, Eq)]
pub enum UintTy {
    Usize,
    U8,
    U16,
    U32,
    U64,
    U128,
}

/// The signed integer types.
#[derive(Clone, Copy, Debug, PartialEq, Eq)]
pub enum IntTy {
    Isize,
    I8,
    I16,
    I32,
    I64,
    I128,
}

/// A resolved type, as far as drawing values needs to know it.
#[derive(Debug, PartialEq, Eq)]
pub enum Ty {
    /// An unsigned integer type.
    Uint(UintTy),
    /// A signed integer type.
    Int(IntTy),
    /// Any other type, by its source text.
    Other(String),
}

/// A resolved type, as a value.
pub enum TyV {
    Uint(UintTy),
    Int(IntTy),
    Other(Seq<char>),
}

impl View for Ty {
    type V = TyV;

    open spec fn view(&self) -> TyV {
        match self {
            Ty::Uint(t) => TyV::Uint(*t),
            Ty::Int(t) => TyV::Int(*t),
            Ty::Other(s) => TyV::Other(s@),
        }
    }
}

/// The views of a sequence of resolved types, in order.
pub open spec fn tys_view(v: Seq<Ty>) -> Seq<TyV> {
    Seq::new(v.len(), |i: int| v[i]@)
}

impl Clone for Ty {
    fn clone(&self) -> (r: Self)
        ensures
            r@ == self@,
            r.leaf() == self.leaf(),
    {
        match self {
            Ty::Uint(t) => Ty::Uint(*t),
            Ty::Int(t) => Ty::Int(*t),
            Ty::Other(s) => Ty::Other(s.clone()),
        }
    }
}

/// A primitive integer type: its width in bits, and whether it is signed.
pub struct Leaf {
    pub bits: nat,
    pub signed: bool,
    pub suffix: Seq<char>,
}

/// The primitive integer type that a type is, if it is one. The types of the
/// width of a pointer count for 64 bits.
pub open spec fn leaf_of_type(ty: TyV) -> Option<Leaf> {
    match ty {
        TyV::Uint(UintTy::U8) => Some(Leaf { bits: 8, signed: false, suffix: "u8"@ }),
        TyV::Uint(UintTy::U16) => Some(Leaf { bits: 16, signed: false, suffix: "u16"@ }),
        TyV::Uint(UintTy::U32) => Some(Leaf { bits: 32, signed: false, suffix: "u32"@ }),
        TyV::Uint(UintTy::U64) => Some(Leaf { bits: 64, signed: false, suffix: "u64"@ }),
        TyV::Uint(UintTy::U128) => Some(Leaf { bits: 128, signed: false, suffix: "u128"@ }),
        TyV::Uint(UintTy::Usize) => Some(Leaf { bits: 64, signed: false, suffix: "usize"@ }),
        TyV::Int(IntTy::I8) => Some(Leaf { bits: 8, signed: true, suffix: "i8"@ }),
        TyV::Int(IntTy::I16) => Some(Leaf { bits: 16, signed: true, suffix: "i16"@ }),
        TyV::Int(IntTy::I32) => Some(Leaf { bits: 32, signed: true, suffix: "i32"@ }),
        TyV::Int(IntTy::I64) => Some(Leaf { bits: 64, signed: true, suffix: "i64"@ }),
        TyV::Int(IntTy::I128) => Some(Leaf { bits: 128, signed: true, suffix: "i128"@ }),
        TyV::Int(IntTy::Isize) => Some(Leaf { bits: 64, signed: true, suffix: "isize"@ }),
        TyV::Other(_) => None,
    }
}

impl Ty {
    /// The primitive integer type that the type is, if it is one.
    pub open spec fn leaf(&self) -> Option<Leaf> {
        leaf_of_type(self@)
    }
}

/// The number that the first `n` of the bytes `bytes` denote, the least
/// significant byte first; bytes that are missing count as zero.
pub open spec fn le_value(bytes: Seq<u8>, n: nat) -> nat
    decreases n,
{
    if n == 0 {
        0
    } else {
        let first: nat = if bytes.len() > 0 {
            bytes[0] as nat
        } else {
            0
        };
        let rest = if bytes.len() > 0 {
            bytes.drop_first()
        } else {
            bytes
        };
        first + 256 * le_value(rest, (n - 1) as nat)
    }
}

/// Two to the power `bits`, for the widths of the integer types.
pub open spec fn modulus(bits: nat) -> int {
    if bits == 8 {
        0x100int
    } else if bits == 16 {
        0x1_0000int
    } else if bits == 32 {
        0x1_0000_0000int
    } else if bits == 64 {
        0x1_0000_0000_0000_0000int
    } else {
        0x1_0000_0000_0000_0000_0000_0000_0000_0000int
    }
}

/// The integer of the type `leaf` that the raw draw `raw` gives: its low
/// bits, read in two's complement where the type is signed.
pub open spec fn drawn(leaf: Leaf, raw: nat) -> int {
    let low = raw as int % modulus(leaf.bits);
    if leaf.signed && 2 * low >= modulus(leaf.bits) {
        low - modulus(leaf.bits)
    } else {
        low
    }
}

/// The encoding of the integer `v` of the type `leaf`: a number, and decimal
/// text for the types of 128 bits.
pub open spec fn encoded(leaf: Leaf, v: int) -> ValueV {
    if leaf.bits == 128 {
        ValueV::String(int_text(v))
    } else {
        ValueV::Number(v)
    }
}

/// The source text of the integer `v` of the type `leaf`.
pub open spec fn literal_text(leaf: Leaf, v: int) -> Seq<char> {
    int_text(v) + leaf.suffix
}

/// The expression that denotes the integer `v` of the type `leaf`: a
/// literal, behind a minus sign where `v` is negative.
pub open spec fn literal_expr(leaf: Leaf, v: int) -> ExprV {
    if v < 0 {
        ExprV::Compound {
            label: "-"@,
            types: Seq::empty(),
            operands: seq![ExprV::Lit(int_text(-v) + leaf.suffix)],
        }
    } else {
        ExprV::Lit(int_text(v) + leaf.suffix)
    }
}

/// A value that was drawn: its encoding, its source text, and the
/// expression that denotes it.
#[derive(Debug)]
pub struct Drawn {
    pub repr: Value,
    pub text: String,
    pub expr: Expr,
}

/// Calls `rand::thread_rng` and `RngCore::fill_bytes` on a buffer of `n`
/// bytes. Trusted: the buffer comes back with its `n` bytes; nothing is
/// claimed of what they hold.
#[verifier::external_body]
fn random_bytes(n: usize) -> (r: Vec<u8>)
    ensures
        r@.len() == n,
{
    let mut bytes = vec![0u8; n];
    rand::RngCore::fill_bytes(&mut rand::thread_rng(), &mut bytes);
    bytes
}

/// Calls `<u128 as arbitrary::Arbitrary>::arbitrary` on an `Unstructured`
/// over `bytes`. Trusted: it fills sixteen bytes from the front of `bytes`,
/// with zeros where `bytes` has fewer, reads them as a number with the least
/// significant byte first, and never fails.
#[verifier::external_body]
fn arbitrary_u128(bytes: &[u8]) -> (r: u128)
    ensures
        r == le_value(bytes@, 16),
{
    <u128 as arbitrary::Arbitrary>::arbitrary(&mut arbitrary::Unstructured::new(bytes)).unwrap()
}

/// The width and the signedness of a type, where it is a primitive integer
/// type.
pub fn leaf_of(ty: &Ty) -> (r: Option<(u8, bool, &'static str)>)
    ensures
        match r {
            Some(l) => ty.leaf() == Some(Leaf { bits: l.0 as nat, signed: l.1, suffix: l.2@ }),
            None => ty.leaf().is_none(),
        },
{
    match ty {
        Ty::Uint(UintTy::U8) => Some((8, false, "u8")),
        Ty::Uint(UintTy::U16) => Some((16, false, "u16")),
        Ty::Uint(UintTy::U32) => Some((32, false, "u32")),
        Ty::Uint(UintTy::U64) => Some((64, false, "u64")),
        Ty::Uint(UintTy::U128) => Some((128, false, "u128")),
        Ty::Uint(UintTy::Usize) => Some((64, false, "usize")),
        Ty::Int(IntTy::I8) => Some((8, true, "i8")),
        Ty::Int(IntTy::I16) => Some((16, true, "i16")),
        Ty::Int(IntTy::I32) => Some((32, true, "i32")),
        Ty::Int(IntTy::I64) => Some((64, true, "i64")),
        Ty::Int(IntTy::I128) => Some((128, true, "i128")),
        Ty::Int(IntTy::Isize) => Some((64, true, "isize")),
        Ty::Other(_) => None,
    }
}

/// The low `bits` bits of `raw`.
pub fn low_bits(raw: u128, bits: u8) -> (r: u128)
    requires
        bits == 8 || bits == 16 || bits == 32 || bits == 64 || bits == 128,
    ensures
        r == raw as int % modulus(bits as nat),
{
    if bits == 8 {
        raw % 0x100
    } else if bits == 16 {
        raw % 0x1_0000
    } else if bits == 32 {
        raw % 0x1_0000_0000
    } else if bits == 64 {
        raw % 0x1_0000_0000_0000_0000
    } else {
        raw
    }
}

/// The value of the type `ty` that the raw draw `raw` gives; `None` where
/// `ty` is no primitive integer type.
pub fn value_for_type(ty: &Ty, raw: u128) -> (r: Option<Drawn>)
    ensures
        match r {
            Some(d) => ty.leaf().is_some() && d.repr@ == encoded(
                ty.leaf().unwrap(),
                drawn(ty.leaf().unwrap(), raw as nat),
            ) && d.text@ == literal_text(ty.leaf().unwrap(), drawn(ty.leaf().unwrap(), raw as nat))
                && d.expr@ == literal_expr(
                ty.leaf().unwrap(),
                drawn(ty.leaf().unwrap(), raw as nat),
            ),
            None => ty.leaf().is_none(),
        },
{
    let (bits, signed, suffix) = match leaf_of(ty) {
        Some(l) => l,
        None => {
            return None;
        },
    };
    let ghost leaf = ty.leaf().unwrap();
    let low = low_bits(raw, bits);
    let half: u128 = if bits == 8 {
        0x80
    } else if bits == 16 {
        0x8000
    } else if bits == 32 {
        0x8000_0000
    } else if bits == 64 {
        0x8000_0000_0000_0000
    } else {
        0x8000_0000_0000_0000_0000_0000_0000_0000
    };
    let negative = signed && low >= half;
    // The magnitude of the value: `low` itself, or two to the width less `low`.
    let magnitude: u128 = if negative {
        if bits == 128 {
            (u128::MAX - low) + 1
        } else {
            (half - (low - half))
        }
    } else {
        low
    };
    let ghost v: int = drawn(leaf, raw as nat);
    assert(v == (if negative {
        -(magnitude as int)
    } else {
        magnitude as int
    }));
    let digits = to_decimal(magnitude);
    let mut text = if negative {
        let mut t = String::from_str("-");
        t.append(digits.as_str());
        t
    } else {
        digits.clone()
    };
    assert(text@ =~= int_text(v)) by {
        reveal_strlit("-");
    }
    let repr = if bits == 128 {
        Value::String(text.clone())
    } else if negative {
        Value::Number(-(magnitude as i128))
    } else {
        Value::Number(magnitude as i128)
    };
    text.append(suffix);
    let mut unsigned_text = digits;
    unsigned_text.append(suffix);
    let expr = if negative {
        let mut operands: Vec<Expr> = Vec::new();
        operands.push(Expr::Lit(unsigned_text));
        let e = Expr::Compound { label: String::from_str("-"), types: Vec::new(), operands };
        assert(e@->Compound_operands == exprs_view(e->Compound_operands@));
        assert(e@->Compound_types == types_view(e->Compound_types@));
        assert(e@->Compound_operands =~= seq![ExprV::Lit(int_text(-v) + leaf.suffix)]);
        assert(e@->Compound_types =~= Seq::empty());
        e
    } else {
        Expr::Lit(unsigned_text)
    };
    Some(Drawn { repr, text, expr })
}

/// Whether `d` is the value of the type `ty` that the raw draw `raw` gives.
pub open spec fn is_draw(d: Drawn, ty: TyV, raw: nat) -> bool {
    &&& leaf_of_type(ty).is_some()
    &&& d.repr@ == encoded(leaf_of_type(ty).unwrap(), drawn(leaf_of_type(ty).unwrap(), raw))
    &&& d.text@ == literal_text(leaf_of_type(ty).unwrap(), drawn(leaf_of_type(ty).unwrap(), raw))
    &&& d.expr@ == literal_expr(leaf_of_type(ty).unwrap(), drawn(leaf_of_type(ty).unwrap(), raw))
}

/// The value of the type `ty` that the raw bytes `bytes` give: that of the
/// number which the first sixteen bytes denote, the least significant first.
pub fn draw_from_bytes(ty: &Ty, bytes: &[u8]) -> (r: Option<Drawn>)
    ensures
        match r {
            Some(d) => is_draw(d, ty@, le_value(bytes@, 16)),
            None => ty.leaf().is_none(),
        },
{
    let raw = arbitrary_u128(bytes);
    value_for_type(ty, raw)
}

/// A random value of the type `ty`: its encoding, its source text, and the
/// expression that denotes it. `None` where `ty` is no primitive integer
/// type.
pub fn generate_for_type(ty: &Ty) -> (r: Option<Drawn>)
    ensures
        match r {
            Some(d) => exists|raw: nat| #[trigger] is_draw(d, ty@, raw),
            None => ty.leaf().is_none(),
        },
{
    let bytes = random_bytes(512);
    let r = draw_from_bytes(ty, bytes.as_slice());
    proof {
        if r.is_some() {
            assert(is_draw(r.unwrap(), ty@, le_value(bytes@, 16)));
        }
    }
    r
}

} // verus!
