use vstd::prelude::*;

use crate::bytes::{le_u32_at, read_u32_le};

verus! {

/// Bytes per entry of the argument table: a pointer word and a length word.
pub const ARG_ENTRY_BYTES: usize = 8;

/// Most arguments that a KraftOS program is started with.
pub const MAX_KRAFTOS_ARGS: isize = 4;

/// Why the argument table that a program was started with cannot be read.
#[derive(Clone, Copy, Debug, PartialEq, Eq, Structural)]
pub enum ArgsError {
    /// The argument count is negative or above `MAX_KRAFTOS_ARGS`.
    InvalidArgc,
    /// Arguments are announced but the table pointer is null.
    InvalidTable,
    /// An entry has a null pointer and a non-zero length.
    InvalidEntry,
}

impl ArgsError {
    /// The message a program stops with on this error.
    pub fn message(&self) -> (m: &'static str)
        ensures
            *self == ArgsError::InvalidArgc ==> m@ == "invalid KraftOS argc"@,
            *self == ArgsError::InvalidTable ==> m@ == "invalid KraftOS argv table"@,
            *self == ArgsError::InvalidEntry ==> m@ == "invalid KraftOS argv entry"@,
    {
        match self {
            ArgsError::InvalidArgc => "invalid KraftOS argc",
            ArgsError::InvalidTable => "invalid KraftOS argv table",
            ArgsError::InvalidEntry => "invalid KraftOS argv entry",
        }
    }
}

/// One argument as the table records it: the address of its bytes and
/// their count. The bytes are not terminated.
#[derive(Clone, Copy, Debug, PartialEq, Eq, Structural)]
pub struct ArgSpan {
    pub addr: u32,
    pub len: u32,
}

/// How many table entries to read for a program started with `argc`
/// arguments and a table pointer that is null or not.
pub open spec fn arg_count(argc: isize, table_is_null: bool) -> Result<usize, ArgsError> {
    if argc < 0 || argc > MAX_KRAFTOS_ARGS {
        Err(ArgsError::InvalidArgc)
    } else if argc == 0 {
        Ok(0)
    } else if table_is_null {
        Err(ArgsError::InvalidTable)
    } else {
        Ok(argc as usize)
    }
}

/// Checks the argument count and table pointer a program was started with
/// and says how many table entries to read.
pub fn plan_args(argc: isize, table_is_null: bool) -> (r: Result<usize, ArgsError>)
    ensures
        r == arg_count(argc, table_is_null),
{
    if argc < 0 || argc > MAX_KRAFTOS_ARGS {
        return Err(ArgsError::InvalidArgc);
    }
    if argc == 0 {
        return Ok(0);
    }
    if table_is_null {
        return Err(ArgsError::InvalidTable);
    }
    Ok(argc as usize)
}

/// The entry at `index` of an argument table.
pub open spec fn arg_entry(table: Seq<u8>, index: int) -> ArgSpan {
    ArgSpan {
        addr: le_u32_at(table, index * 8) as u32,
        len: le_u32_at(table, index * 8 + 4) as u32,
    }
}

/// An entry is readable unless its pointer is null and its length is not
/// zero.
pub open spec fn arg_entry_ok(span: ArgSpan) -> bool {
    !(span.addr == 0 && span.len != 0)
}

/// Reads the `count` entries of an argument table, refusing the table where
/// one of them is broken.
pub fn decode_arg_table(table: &[u8], count: usize) -> (r: Result<Vec<ArgSpan>, ArgsError>)
    requires
        count <= MAX_KRAFTOS_ARGS,
        table@.len() == count * ARG_ENTRY_BYTES,
    ensures
        (forall|i: int| 0 <= i < count ==> arg_entry_ok(#[trigger] arg_entry(table@, i)))
            ==> r is Ok && r->Ok_0@ == Seq::new(count as nat, |i: int| arg_entry(table@, i)),
        (exists|i: int| 0 <= i < count && !arg_entry_ok(#[trigger] arg_entry(table@, i))) ==> r
            == Err::<Vec<ArgSpan>, ArgsError>(ArgsError::InvalidEntry),
{
    let mut spans: Vec<ArgSpan> = Vec::new();
    let mut index: usize = 0;
    while index < count
        invariant
            count <= MAX_KRAFTOS_ARGS,
            table@.len() == count * ARG_ENTRY_BYTES,
            index <= count,
            spans@ == Seq::new(index as nat, |i: int| arg_entry(table@, i)),
            forall|i: int| 0 <= i < index ==> arg_entry_ok(#[trigger] arg_entry(table@, i)),
        decreases count - index,
    {
        let addr = read_u32_le(table, index * ARG_ENTRY_BYTES);
        let len = read_u32_le(table, index * ARG_ENTRY_BYTES + 4);
        let span = ArgSpan { addr, len };
        assert(span == arg_entry(table@, index as int));
        if addr == 0 && len != 0 {
            return Err(ArgsError::InvalidEntry);
        }
        spans.push(span);
        assert(spans@ =~= Seq::new((index + 1) as nat, |i: int| arg_entry(table@, i)));
        index = index + 1;
    }
    Ok(spans)
}

/// How many argument entries are read: none for no arguments; as many as
/// the count for 1 to 4 arguments with a table; a count outside 0 to 4 is
/// refused as such, and a positive count without a table is refused as a
/// missing table.
pub proof fn lemma_arg_count_exact(argc: isize, table_is_null: bool)
    ensures
        argc == 0 ==> arg_count(argc, table_is_null) == Ok::<usize, ArgsError>(0usize),
        0 < argc <= 4 && !table_is_null ==> arg_count(argc, table_is_null) == Ok::<
            usize,
            ArgsError,
        >(argc as usize),
        0 < argc <= 4 && table_is_null ==> arg_count(argc, table_is_null) == Err::<
            usize,
            ArgsError,
        >(ArgsError::InvalidTable),
        (argc < 0 || argc > 4) ==> arg_count(argc, table_is_null) == Err::<usize, ArgsError>(
            ArgsError::InvalidArgc,
        ),
{
}

/// Entry `i` of the table holds the little-endian pointer word at byte
/// `8 * i` and the length word at byte `8 * i + 4`, and it is broken exactly
/// when its pointer is null and its length is not zero.
pub proof fn lemma_arg_entry_exact(table: Seq<u8>, i: int)
    ensures
        arg_entry(table, i).addr as int == (table[8 * i] as int + 256 * table[8 * i + 1] as int
            + 65536 * table[8 * i + 2] as int + 16777216 * table[8 * i + 3] as int) as u32,
        arg_entry(table, i).len as int == (table[8 * i + 4] as int + 256 * table[8 * i + 5] as int
            + 65536 * table[8 * i + 6] as int + 16777216 * table[8 * i + 7] as int) as u32,
        arg_entry_ok(arg_entry(table, i)) == !(arg_entry(table, i).addr == 0 && arg_entry(
            table,
            i,
        ).len != 0),
{
}

} // verus!
