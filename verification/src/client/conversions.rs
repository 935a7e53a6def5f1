//! Field-level conversions from the wire: what an absent field resolves to.

use crate::interfaces::{words_view, FRegConfig, XRegConfig};
use vstd::prelude::*;

verus! {

/// What an optional register file resolves to: its first 32 values, or 32
/// zeros where it is absent.
pub open spec fn spec_convert_registers(field: Option<Seq<u64>>) -> Seq<u64> {
    match field {
        Some(values) => values.subrange(0, 32),
        None => Seq::new(32, |i: int| 0u64),
    }
}

fn convert_registers(field: &Option<Vec<u64>>) -> (registers: [u64; 32])
    requires
        field matches Some(values) ==> values.len() >= 32,
    ensures
        registers@ == spec_convert_registers(words_view(*field)),
{
    let mut registers: [u64; 32] = [0; 32];
    match field {
        Some(values) => {
            let mut index: usize = 0;
            while index < 32
                invariant
                    index <= 32,
                    values.len() >= 32,
                    forall|i: int| 0 <= i < index ==> registers@[i] == values@[i],
                decreases 32 - index,
            {
                registers[index] = values[index];
                index += 1;
            }
            assert(registers@ =~= values@.subrange(0, 32));
        },
        None => {
            assert(registers@ =~= Seq::new(32, |i: int| 0u64));
        },
    }
    registers
}

/// Resolves the general-purpose register file of a wire configuration.
///
/// A register file that is present must hold at least 32 values; values past
/// the 32nd are ignored.
pub fn convert_x_csr_field(x: &Option<XRegConfig>) -> (registers: [u64; 32])
    requires
        x matches Some(values) ==> values.len() >= 32,
    ensures
        registers@ == spec_convert_registers(words_view(*x)),
{
    convert_registers(x)
}

/// Resolves the floating-point register file of a wire configuration.
///
/// A register file that is present must hold at least 32 values; values past
/// the 32nd are ignored.
pub fn convert_f_csr_field(f: &Option<FRegConfig>) -> (registers: [u64; 32])
    requires
        f matches Some(values) ==> values.len() >= 32,
    ensures
        registers@ == spec_convert_registers(words_view(*f)),
{
    convert_registers(f)
}

/// Resolves one control and status register: an absent register is zero.
pub fn convert_csr_field(field: Option<u64>) -> (value: u64)
    ensures
        value == field.unwrap_or(0),
{
    match field {
        Some(x) => x,
        None => 0,
    }
}

/// Resolves an optional text: an absent text is empty.
pub(crate) fn text_or_empty(field: &Option<String>) -> (text: String)
    ensures
        text@ == field.deep_view().unwrap_or(Seq::empty()),
{
    match field {
        Some(text) => text.clone(),
        None => String::new(),
    }
}

/// The 32 values of a register file as a list.
pub(crate) fn registers_to_words(registers: &[u64; 32]) -> (words: Vec<u64>)
    ensures
        words@ == registers@,
{
    let mut words: Vec<u64> = Vec::new();
    let mut index: usize = 0;
    while index < 32
        invariant
            index <= 32,
            words.len() == index,
            forall|i: int| 0 <= i < index ==> words@[i] == registers@[i],
        decreases 32 - index,
    {
        words.push(registers[index]);
        index += 1;
    }
    assert(words@ =~= registers@);
    words
}

} // verus!
