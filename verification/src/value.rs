//! The primitive values that cross the host/guest boundary, and their
//! untyped wire form.

use vstd::prelude::*;

verus! {

/// The kind (type tag) of a guest-visible primitive value.
#[derive(Clone, Copy, PartialEq, Eq, Structural, Debug)]
pub enum ValueKind {
    I32,
    I64,
    F32,
    F64,
}

/// A typed value crossing the host/guest boundary.
///
/// Floating-point values are carried as their IEEE 754 bit patterns
/// (`u32` / `u64`), so marshaling preserves them bit for bit, NaN
/// payloads included; the embedder converts at the edge with
/// `f32::from_bits` / `f32::to_bits` and their `f64` counterparts.
#[derive(Clone, Copy, PartialEq, Eq, Structural, Debug)]
pub enum Value {
    I32(i32),
    I64(i64),
    F32Bits(u32),
    F64Bits(u64),
}

/// The untyped wire form of a value, as an execution engine traffics
/// in: a kind tag next to 64 raw bits.
#[derive(Clone, Copy, PartialEq, Eq, Structural, Debug)]
pub struct RawValue {
    pub kind: ValueKind,
    pub bits: u64,
}

impl Value {
    /// The kind tag of this value.
    pub open spec fn kind(self) -> ValueKind {
        match self {
            Value::I32(_) => ValueKind::I32,
            Value::I64(_) => ValueKind::I64,
            Value::F32Bits(_) => ValueKind::F32,
            Value::F64Bits(_) => ValueKind::F64,
        }
    }

    /// The wire form of this value: its bits zero-extended to 64,
    /// next to its kind tag.
    pub open spec fn marshaled(self) -> RawValue {
        match self {
            Value::I32(x) => RawValue { kind: ValueKind::I32, bits: (x as u32) as u64 },
            Value::I64(x) => RawValue { kind: ValueKind::I64, bits: x as u64 },
            Value::F32Bits(b) => RawValue { kind: ValueKind::F32, bits: b as u64 },
            Value::F64Bits(b) => RawValue { kind: ValueKind::F64, bits: b },
        }
    }

    /// Executable twin of [`Value::kind`].
    pub fn kind_of(&self) -> (k: ValueKind)
        ensures
            k == self.kind(),
    {
        match self {
            Value::I32(_) => ValueKind::I32,
            Value::I64(_) => ValueKind::I64,
            Value::F32Bits(_) => ValueKind::F32,
            Value::F64Bits(_) => ValueKind::F64,
        }
    }

    /// Marshal this value into its wire form.
    pub fn marshal(&self) -> (r: RawValue)
        ensures
            r == self.marshaled(),
    {
        match self {
            Value::I32(x) => RawValue { kind: ValueKind::I32, bits: (*x as u32) as u64 },
            Value::I64(x) => RawValue { kind: ValueKind::I64, bits: *x as u64 },
            Value::F32Bits(b) => RawValue { kind: ValueKind::F32, bits: *b as u64 },
            Value::F64Bits(b) => RawValue { kind: ValueKind::F64, bits: *b },
        }
    }
}

/// The typed value a wire-form value decodes to, if its bits fit the
/// kind it is tagged with.
pub open spec fn unmarshaled(r: RawValue) -> Option<Value> {
    match r.kind {
        ValueKind::I32 => if r.bits <= u32::MAX as u64 {
            Some(Value::I32((r.bits as u32) as i32))
        } else {
            None
        },
        ValueKind::I64 => Some(Value::I64(r.bits as i64)),
        ValueKind::F32 => if r.bits <= u32::MAX as u64 {
            Some(Value::F32Bits(r.bits as u32))
        } else {
            None
        },
        ValueKind::F64 => Some(Value::F64Bits(r.bits)),
    }
}

/// Decode a wire-form value; `None` when its bits do not fit the kind
/// it is tagged with.
pub fn unmarshal(r: RawValue) -> (v: Option<Value>)
    ensures
        v == unmarshaled(r),
{
    match r.kind {
        ValueKind::I32 => if r.bits <= u32::MAX as u64 {
            Some(Value::I32((r.bits as u32) as i32))
        } else {
            None
        },
        ValueKind::I64 => Some(Value::I64(#[verifier::truncate] (r.bits as i64))),
        ValueKind::F32 => if r.bits <= u32::MAX as u64 {
            Some(Value::F32Bits(r.bits as u32))
        } else {
            None
        },
        ValueKind::F64 => Some(Value::F64Bits(r.bits)),
    }
}

/// Marshaling is lossless: decoding the wire form of any value gives
/// the value back, bit for bit — integers keep their sign and width,
/// floats keep their exact bit pattern.
pub proof fn lemma_marshal_round_trip(v: Value)
    ensures
        unmarshaled(v.marshaled()) == Some(v),
{
    match v {
        Value::I32(x) => {
            assert(((((x as u32) as u64) as u32) as i32) == x) by (bit_vector);
            assert(((x as u32) as u64) <= u32::MAX as u64) by (bit_vector);
        },
        Value::I64(x) => {
            assert(((x as u64) as i64) == x) by (bit_vector);
        },
        Value::F32Bits(b) => {
            assert(((b as u64) as u32) == b) by (bit_vector);
            assert((b as u64) <= u32::MAX as u64) by (bit_vector);
        },
        Value::F64Bits(_) => {},
    }
}

/// Decoding is lossless too: re-marshaling a decoded wire value gives
/// the original tag and bits back.
pub proof fn lemma_unmarshal_round_trip(r: RawValue)
    requires
        unmarshaled(r) is Some,
    ensures
        unmarshaled(r)->Some_0.marshaled() == r,
{
    match r.kind {
        ValueKind::I32 => {
            let b = r.bits;
            assert(b <= u32::MAX as u64 ==> ((((b as u32) as i32) as u32) as u64) == b)
                by (bit_vector);
        },
        ValueKind::I64 => {
            let b = r.bits;
            assert(((b as i64) as u64) == b) by (bit_vector);
        },
        ValueKind::F32 => {
            let b = r.bits;
            assert(b <= u32::MAX as u64 ==> ((b as u32) as u64) == b) by (bit_vector);
        },
        ValueKind::F64 => {},
    }
}

/// A decoded value carries the kind its wire form was tagged with.
pub proof fn lemma_unmarshaled_kind(r: RawValue)
    requires
        unmarshaled(r) is Some,
    ensures
        unmarshaled(r)->Some_0.kind() == r.kind,
{
}

/// The kinds of a sequence of values, in order.
pub open spec fn kinds_of(vs: Seq<Value>) -> Seq<ValueKind> {
    vs.map_values(|v: Value| v.kind())
}

/// `vs` is typed by `ks`: same length, and each value's kind matches
/// its slot.
pub open spec fn values_typed(vs: Seq<Value>, ks: Seq<ValueKind>) -> bool {
    &&& vs.len() == ks.len()
    &&& forall|i: int| 0 <= i < vs.len() ==> (#[trigger] vs[i]).kind() == ks[i]
}

/// Check a value list against a kind list, slot by slot.
pub fn check_kinds(vs: &Vec<Value>, ks: &Vec<ValueKind>) -> (r: bool)
    ensures
        r == values_typed(vs@, ks@),
{
    if vs.len() != ks.len() {
        return false;
    }
    let mut i: usize = 0;
    while i < vs.len()
        invariant
            i <= vs@.len(),
            vs@.len() == ks@.len(),
            forall|j: int| 0 <= j < i ==> (#[trigger] vs@[j]).kind() == ks@[j],
        decreases vs@.len() - i,
    {
        let k = vs[i].kind_of();
        if !(k == ks[i]) {
            return false;
        }
        i += 1;
    }
    true
}

/// The kinds of a value list, as a fresh vector.
pub fn kinds_vec(vs: &Vec<Value>) -> (r: Vec<ValueKind>)
    ensures
        r@ == kinds_of(vs@),
{
    let mut r: Vec<ValueKind> = Vec::new();
    let mut i: usize = 0;
    while i < vs.len()
        invariant
            i <= vs@.len(),
            r@.len() == i,
            forall|j: int| 0 <= j < i ==> r@[j] == (#[trigger] vs@[j]).kind(),
        decreases vs@.len() - i,
    {
        r.push(vs[i].kind_of());
        i += 1;
    }
    proof {
        assert(r@ =~= kinds_of(vs@));
    }
    r
}

/// The wire forms of a sequence of values, in order.
pub open spec fn marshaled_all(vs: Seq<Value>) -> Seq<RawValue> {
    vs.map_values(|v: Value| v.marshaled())
}

/// Marshal a value list into its wire form, value by value.
pub fn marshal_values(vs: &Vec<Value>) -> (r: Vec<RawValue>)
    ensures
        r@ == marshaled_all(vs@),
{
    let mut r: Vec<RawValue> = Vec::new();
    let mut i: usize = 0;
    while i < vs.len()
        invariant
            i <= vs@.len(),
            r@.len() == i,
            forall|j: int| 0 <= j < i ==> r@[j] == (#[trigger] vs@[j]).marshaled(),
        decreases vs@.len() - i,
    {
        r.push(vs[i].marshal());
        i += 1;
    }
    proof {
        assert(r@ =~= marshaled_all(vs@));
    }
    r
}

/// A whole wire-form list decodes against a kind list: lengths agree,
/// every slot is tagged with the expected kind, and every slot's bits
/// fit that kind.
pub open spec fn raw_decodes(raw: Seq<RawValue>, ks: Seq<ValueKind>) -> bool {
    &&& raw.len() == ks.len()
    &&& forall|i: int| 0 <= i < raw.len() ==> (#[trigger] raw[i]).kind == ks[i]
    &&& forall|i: int| 0 <= i < raw.len() ==> unmarshaled(#[trigger] raw[i]) is Some
}

/// Decode a wire-form list against the kinds a signature expects.
///
/// Succeeds exactly when every slot is tagged with the expected kind
/// and decodes; the result is then typed by `ks` and re-marshals to
/// exactly the input bits.
pub fn unmarshal_values(raw: &Vec<RawValue>, ks: &Vec<ValueKind>) -> (r: Option<Vec<Value>>)
    ensures
        r is Some <==> raw_decodes(raw@, ks@),
        r matches Some(vs) ==> {
            &&& values_typed(vs@, ks@)
            &&& marshaled_all(vs@) == raw@
        },
{
    if raw.len() != ks.len() {
        return None;
    }
    let mut out: Vec<Value> = Vec::new();
    let mut i: usize = 0;
    while i < raw.len()
        invariant
            i <= raw@.len(),
            raw@.len() == ks@.len(),
            out@.len() == i,
            forall|j: int| 0 <= j < i ==> (#[trigger] raw@[j]).kind == ks@[j],
            forall|j: int| 0 <= j < i ==> unmarshaled(#[trigger] raw@[j]) is Some,
            forall|j: int| 0 <= j < i ==> Some(#[trigger] out@[j]) == unmarshaled(raw@[j]),
        decreases raw@.len() - i,
    {
        let rv = raw[i];
        if !(rv.kind == ks[i]) {
            return None;
        }
        match unmarshal(rv) {
            Some(v) => {
                out.push(v);
            },
            None => {
                return None;
            },
        }
        i += 1;
    }
    proof {
        assert forall|j: int| 0 <= j < out@.len() implies (#[trigger] out@[j]).kind() == ks@[j] by {
            lemma_unmarshaled_kind(raw@[j]);
        }
        assert forall|j: int| 0 <= j < out@.len() implies (#[trigger] out@[j]).marshaled() == raw@[j] by {
            lemma_unmarshal_round_trip(raw@[j]);
        }
        assert(marshaled_all(out@) =~= raw@);
    }
    Some(out)
}

} // verus!
