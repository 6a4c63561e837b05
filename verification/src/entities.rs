//! Entity references: compact, copyable handles that index the tables of a
//! function's intermediate representation.
//!
//! Each handle wraps a `u32` index. The maximum representable value is
//! reserved as a sentinel meaning "no such entity"; it is the default value
//! of every handle and never denotes a real table entry. There is a distinct
//! nominal type per entity kind, so a block reference can never be used where
//! an instruction reference is expected.

use crate::text::decimal_string;
use crate::text::spec_decimal;
use vstd::prelude::*;
use vstd::string::*;

verus! {

/// An opaque reference to an extended basic block in a function.
#[derive(Copy, Clone, PartialEq, Eq, Hash, Debug, Structural)]
pub struct Ebb(pub u32);

impl Ebb {
    /// A reference to the block at `index` in the function's block table.
    ///
    /// The index must be strictly below the sentinel; the owning table never
    /// grows that far, so a violation is a bug in the caller.
    pub fn new(index: usize) -> (r: Ebb)
        requires
            index < u32::MAX as usize,
        ensures
            r == Ebb(index as u32),
    {
        Ebb(index as u32)
    }

    /// A block reference from its number, as it appears after the `ebb`
    /// prefix in the textual form. The numeral domain is the whole storage
    /// domain, so only the sentinel itself is rejected.
    pub fn with_number(n: u32) -> (r: Option<Ebb>)
        ensures
            n < u32::MAX ==> r == Some(Ebb(n)),
            n == u32::MAX ==> r is None,
    {
        if n < u32::MAX {
            Some(Ebb(n))
        } else {
            None
        }
    }

    /// The underlying index, for the owning table.
    pub fn index(&self) -> (r: usize)
        ensures
            r == self.0 as usize,
    {
        self.0 as usize
    }

    /// The canonical textual form of this reference.
    pub open spec fn spec_text(self) -> Seq<char> {
        seq!['e', 'b', 'b'] + spec_decimal(self.0 as nat)
    }

    /// The textual form `ebb<N>`, e.g. `ebb12`.
    pub fn text(&self) -> (r: String)
        ensures
            r@ == self.spec_text(),
    {
        let mut s: String = "ebb".to_owned();
        s.append(decimal_string(self.0).as_str());
        proof {
            reveal_strlit("ebb");
            assert(s@ =~= self.spec_text());
        }
        s
    }
}

impl Default for Ebb {
    /// The default block reference is the sentinel: "no block".
    fn default() -> (r: Ebb)
        ensures
            r == Ebb(u32::MAX),
    {
        Ebb(u32::MAX)
    }
}

/// An opaque reference to an instruction in a function.
#[derive(Copy, Clone, PartialEq, Eq, Hash, Debug, Structural)]
pub struct Inst(pub u32);

impl Inst {
    /// A reference to the instruction at `index` in the function's
    /// instruction table.
    ///
    /// The index must be strictly below the sentinel; the owning table never
    /// grows that far, so a violation is a bug in the caller.
    pub fn new(index: usize) -> (r: Inst)
        requires
            index < u32::MAX as usize,
        ensures
            r == Inst(index as u32),
    {
        Inst(index as u32)
    }

    /// The underlying index, for the owning table.
    pub fn index(&self) -> (r: usize)
        ensures
            r == self.0 as usize,
    {
        self.0 as usize
    }

    /// The canonical textual form of this reference.
    pub open spec fn spec_text(self) -> Seq<char> {
        seq!['i', 'n', 's', 't'] + spec_decimal(self.0 as nat)
    }

    /// The textual form `inst<N>`, e.g. `inst7`.
    pub fn text(&self) -> (r: String)
        ensures
            r@ == self.spec_text(),
    {
        let mut s: String = "inst".to_owned();
        s.append(decimal_string(self.0).as_str());
        proof {
            reveal_strlit("inst");
            assert(s@ =~= self.spec_text());
        }
        s
    }
}

impl Default for Inst {
    /// The default instruction reference is the sentinel: "no instruction".
    fn default() -> (r: Inst)
        ensures
            r == Inst(u32::MAX),
    {
        Inst(u32::MAX)
    }
}

/// An opaque reference to an SSA value.
///
/// The payload encodes two kinds of value in one `u32`, using the low bit as
/// the discriminant: an even payload `2*n` is the value produced directly by
/// instruction `n`; an odd payload `2*n + 1` is entry `n` of the extended
/// value table. The sentinel `u32::MAX` means "no value" and is checked
/// before the parity, since its own bit pattern is odd.
#[derive(Copy, Clone, PartialEq, Eq, Hash, Debug, Structural)]
pub struct Value(pub u32);

/// What a value reference denotes, once its payload is decoded.
#[derive(Copy, Clone, PartialEq, Eq, Debug, Structural)]
pub enum ExpandedValue {
    /// The first value produced by the referenced instruction.
    Direct(Inst),
    /// A value described in the extended value table, at this index.
    Table(usize),
    /// No value: the sentinel.
    Absent,
}

impl Value {
    /// The encoding of the value produced directly by instruction `i`.
    pub open spec fn spec_direct(i: Inst) -> Value {
        Value((i.0 * 2) as u32)
    }

    /// The encoding of entry `index` of the extended value table.
    pub open spec fn spec_table(index: u32) -> Value {
        Value((index * 2 + 1) as u32)
    }

    /// The encoding built from the numeral of the `v<N>` textual form.
    pub open spec fn spec_from_direct_number(n: u32) -> Value {
        Value((n * 2) as u32)
    }

    /// The encoding built from the numeral of the `vx<N>` textual form.
    pub open spec fn spec_from_table_number(n: u32) -> Value {
        Value((n * 2 + 1) as u32)
    }

    /// What this reference denotes: the sentinel is absent, an even payload
    /// is direct, an odd payload is a table entry; in both of the last two
    /// the index is the payload shifted past the discriminant bit.
    pub open spec fn spec_expand(self) -> ExpandedValue {
        if self.0 == u32::MAX {
            ExpandedValue::Absent
        } else if self.0 % 2 == 0 {
            ExpandedValue::Direct(Inst(self.0 / 2))
        } else {
            ExpandedValue::Table((self.0 / 2) as usize)
        }
    }

    /// A `Direct` value from its number representation: the numeral of the
    /// `v<N>` notation. Absent when doubling the numeral would reach or pass
    /// the sentinel.
    pub fn direct_with_number(n: u32) -> (r: Option<Value>)
        ensures
            n < u32::MAX / 2 ==> r == Some(Value::spec_from_direct_number(n)),
            n >= u32::MAX / 2 ==> r is None,
    {
        if n < u32::MAX / 2 {
            let encoding: u32 = n * 2;
            Some(Value(encoding))
        } else {
            None
        }
    }

    /// A `Table` value from its number representation: the numeral of the
    /// `vx<N>` notation. Absent when the encoding would reach or pass the
    /// sentinel.
    pub fn table_with_number(n: u32) -> (r: Option<Value>)
        ensures
            n < u32::MAX / 2 ==> r == Some(Value::spec_from_table_number(n)),
            n >= u32::MAX / 2 ==> r is None,
    {
        if n < u32::MAX / 2 {
            let encoding: u32 = n * 2 + 1;
            Some(Value(encoding))
        } else {
            None
        }
    }

    /// The value produced directly by instruction `i`.
    ///
    /// The encoding must stay below the sentinel; the instruction table never
    /// grows that far, so a violation is a bug in the caller.
    pub fn new_direct(i: Inst) -> (r: Value)
        requires
            i.0 < u32::MAX / 2,
        ensures
            r == Value::spec_direct(i),
    {
        let encoding: u32 = i.0 * 2;
        Value(encoding)
    }

    /// The value at `index` in the extended value table.
    ///
    /// The encoding must stay below the sentinel; the extended value table
    /// never grows that far, so a violation is a bug in the caller.
    pub fn new_table(index: usize) -> (r: Value)
        requires
            index < (u32::MAX / 2) as usize,
        ensures
            r == Value::spec_table(index as u32),
    {
        let encoding: u32 = (index as u32) * 2 + 1;
        Value(encoding)
    }

    /// Decode the internal representation. Every consumer of a value
    /// reference goes through this; the sentinel is checked before the
    /// parity, so it is never mistaken for a table entry.
    pub fn expand(&self) -> (r: ExpandedValue)
        ensures
            r == self.spec_expand(),
    {
        if self.0 == u32::MAX {
            ExpandedValue::Absent
        } else {
            let index: u32 = self.0 / 2;
            if self.0 % 2 == 0 {
                ExpandedValue::Direct(Inst::new(index as usize))
            } else {
                ExpandedValue::Table(index as usize)
            }
        }
    }

    /// The canonical textual form of this reference: the direct numeral, the
    /// table numeral, or the reserved marker for "no value".
    pub open spec fn spec_text(self) -> Seq<char> {
        match self.spec_expand() {
            ExpandedValue::Direct(i) => seq!['v'] + spec_decimal(i.0 as nat),
            ExpandedValue::Table(index) => seq!['v', 'x'] + spec_decimal(index as nat),
            ExpandedValue::Absent => seq!['N', 'O', '_', 'V', 'A', 'L', 'U', 'E'],
        }
    }

    /// The textual form: `v<N>` for a direct value, `vx<N>` for a table
    /// value, and the reserved absent marker for the sentinel.
    pub fn text(&self) -> (r: String)
        ensures
            r@ == self.spec_text(),
    {
        match self.expand() {
            ExpandedValue::Direct(i) => {
                let mut s: String = "v".to_owned();
                s.append(decimal_string(i.0).as_str());
                proof {
                    reveal_strlit("v");
                    assert(s@ =~= self.spec_text());
                }
                s
            },
            ExpandedValue::Table(index) => {
                let mut s: String = "vx".to_owned();
                s.append(decimal_string(index as u32).as_str());
                proof {
                    reveal_strlit("vx");
                    assert(s@ =~= self.spec_text());
                }
                s
            },
            ExpandedValue::Absent => {
                let s: String = "NO_VALUE".to_owned();
                proof {
                    reveal_strlit("NO_VALUE");
                    assert(s@ =~= self.spec_text());
                }
                s
            },
        }
    }
}

impl Default for Value {
    /// The default value reference is the sentinel: "no value".
    fn default() -> (r: Value)
        ensures
            r == Value(u32::MAX),
    {
        Value(u32::MAX)
    }
}

/// An opaque reference to a stack slot.
#[derive(Copy, Clone, PartialEq, Eq, Hash, Debug, Structural)]
pub struct StackSlot(pub u32);

impl StackSlot {
    /// A reference to the slot at `index` in the function's stack slot
    /// table.
    ///
    /// The index must be strictly below the sentinel; the owning table never
    /// grows that far, so a violation is a bug in the caller.
    pub fn new(index: usize) -> (r: StackSlot)
        requires
            index < u32::MAX as usize,
        ensures
            r == StackSlot(index as u32),
    {
        StackSlot(index as u32)
    }

    /// The underlying index, for the owning table.
    pub fn index(&self) -> (r: usize)
        ensures
            r == self.0 as usize,
    {
        self.0 as usize
    }

    /// The canonical textual form of this reference.
    pub open spec fn spec_text(self) -> Seq<char> {
        seq!['s', 's'] + spec_decimal(self.0 as nat)
    }

    /// The textual form `ss<N>`, e.g. `ss12`.
    pub fn text(&self) -> (r: String)
        ensures
            r@ == self.spec_text(),
    {
        let mut s: String = "ss".to_owned();
        s.append(decimal_string(self.0).as_str());
        proof {
            reveal_strlit("ss");
            assert(s@ =~= self.spec_text());
        }
        s
    }
}

impl Default for StackSlot {
    /// The default stack slot reference is the sentinel: "no stack slot".
    fn default() -> (r: StackSlot)
        ensures
            r == StackSlot(u32::MAX),
    {
        StackSlot(u32::MAX)
    }
}

/// An opaque reference to a jump table.
#[derive(Copy, Clone, PartialEq, Eq, Hash, Debug, Structural)]
pub struct JumpTable(pub u32);

impl JumpTable {
    /// A reference to the table at `index` in the function's jump table
    /// table.
    ///
    /// The index must be strictly below the sentinel; the owning table never
    /// grows that far, so a violation is a bug in the caller.
    pub fn new(index: usize) -> (r: JumpTable)
        requires
            index < u32::MAX as usize,
        ensures
            r == JumpTable(index as u32),
    {
        JumpTable(index as u32)
    }

    /// The underlying index, for the owning table.
    pub fn index(&self) -> (r: usize)
        ensures
            r == self.0 as usize,
    {
        self.0 as usize
    }

    /// The canonical textual form of this reference.
    pub open spec fn spec_text(self) -> Seq<char> {
        seq!['j', 't'] + spec_decimal(self.0 as nat)
    }

    /// The textual form `jt<N>`, e.g. `jt12`.
    pub fn text(&self) -> (r: String)
        ensures
            r@ == self.spec_text(),
    {
        let mut s: String = "jt".to_owned();
        s.append(decimal_string(self.0).as_str());
        proof {
            reveal_strlit("jt");
            assert(s@ =~= self.spec_text());
        }
        s
    }
}

impl Default for JumpTable {
    /// The default jump table reference is the sentinel: "no jump table".
    fn default() -> (r: JumpTable)
        ensures
            r == JumpTable(u32::MAX),
    {
        JumpTable(u32::MAX)
    }
}

/// For every numeral strictly below half the sentinel, the direct encoding
/// round-trips: it decodes to the value produced directly by the instruction
/// with that index, and prints as `v` followed by the numeral.
pub proof fn lemma_direct_number_round_trip(n: u32)
    requires
        n < u32::MAX / 2,
    ensures
        Value::spec_from_direct_number(n).spec_expand() == ExpandedValue::Direct(Inst(n)),
        Value::spec_from_direct_number(n).spec_text() == seq!['v'] + spec_decimal(n as nat),
{
}

/// For every numeral strictly below half the sentinel, the table encoding
/// round-trips: it decodes to the extended value table entry with that
/// index, and prints as `vx` followed by the numeral.
pub proof fn lemma_table_number_round_trip(n: u32)
    requires
        n < u32::MAX / 2,
    ensures
        Value::spec_from_table_number(n).spec_expand() == ExpandedValue::Table(n as usize),
        Value::spec_from_table_number(n).spec_text() == seq!['v', 'x'] + spec_decimal(n as nat),
{
}

/// Construction-path equivalence: building a value from an instruction
/// reference or a table index gives the same encoding as building it from
/// the corresponding printed numeral.
pub proof fn lemma_construction_paths_agree(k: u32)
    requires
        k < u32::MAX / 2,
    ensures
        Value::spec_from_direct_number(k) == Value::spec_direct(Inst(k)),
        Value::spec_from_table_number(k) == Value::spec_table(k),
{
}

/// The sentinel value reference decodes to absent and prints as the
/// reserved marker, which no other value reference ever prints: every
/// non-sentinel form starts with `v`, the marker with `N`.
pub proof fn lemma_sentinel_value_absent(v: Value)
    ensures
        Value(u32::MAX).spec_expand() == ExpandedValue::Absent,
        Value(u32::MAX).spec_text() == seq!['N', 'O', '_', 'V', 'A', 'L', 'U', 'E'],
        v.0 != u32::MAX ==> v.spec_text() != seq!['N', 'O', '_', 'V', 'A', 'L', 'U', 'E'],
{
    let marker = seq!['N', 'O', '_', 'V', 'A', 'L', 'U', 'E'];
    if v.0 != u32::MAX {
        assert(v.spec_text()[0] == 'v');
        assert(marker[0] == 'N');
    }
}

/// Block references are equal exactly when their indices are equal; in
/// particular the sentinel equals only itself.
pub proof fn lemma_ebb_equality(a: Ebb, b: Ebb)
    ensures
        a == b <==> a.0 == b.0,
{
}

/// Instruction references are equal exactly when their indices are equal.
pub proof fn lemma_inst_equality(a: Inst, b: Inst)
    ensures
        a == b <==> a.0 == b.0,
{
}

/// Value references are equal exactly when their payloads are equal.
pub proof fn lemma_value_equality(a: Value, b: Value)
    ensures
        a == b <==> a.0 == b.0,
{
}

/// Stack slot references are equal exactly when their indices are equal.
pub proof fn lemma_stack_slot_equality(a: StackSlot, b: StackSlot)
    ensures
        a == b <==> a.0 == b.0,
{
}

/// Jump table references are equal exactly when their indices are equal.
pub proof fn lemma_jump_table_equality(a: JumpTable, b: JumpTable)
    ensures
        a == b <==> a.0 == b.0,
{
}

} // verus!
