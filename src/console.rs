use vstd::prelude::*;

verus! {

/// The console mode bit that makes the console interpret ANSI escape
/// sequences instead of printing them.
pub const ENABLE_VIRTUAL_TERMINAL_PROCESSING: u32 = 0x0004;

/// Whether a console mode has virtual terminal processing on.
pub open spec fn vt_enabled(mode: u32) -> bool {
    mode & ENABLE_VIRTUAL_TERMINAL_PROCESSING == ENABLE_VIRTUAL_TERMINAL_PROCESSING
}

/// The mode to write to the console, given what the mode query returned
/// (`None` where the output is not a console): nothing where the query failed
/// or the bit is already on, else the queried mode with the bit added.
pub open spec fn mode_write_spec(queried: Option<u32>) -> Option<u32> {
    match queried {
        None => None,
        Some(m) => if vt_enabled(m) {
            None
        } else {
            Some(m | ENABLE_VIRTUAL_TERMINAL_PROCESSING)
        },
    }
}

/// A console's mode after a write took effect on it (`None` stands for an
/// output that is not a console, which has no mode to change).
pub open spec fn mode_after(mode: Option<u32>, write: Option<u32>) -> Option<u32> {
    match (mode, write) {
        (Some(_), Some(w)) => Some(w),
        _ => mode,
    }
}

/// One pass of the toggle on a console whose mode is `mode`.
pub open spec fn mode_after_toggle(mode: Option<u32>) -> Option<u32> {
    mode_after(mode, mode_write_spec(mode))
}

/// Decides what to write to the console's mode so that virtual terminal
/// processing is on, given what the mode query returned. `None` in the result
/// means that no write is made: the output is not a console, or the bit is
/// already set. A write keeps every other bit of the mode as it was.
pub fn mode_to_write(queried: Option<u32>) -> (r: Option<u32>)
    ensures
        r == mode_write_spec(queried),
        queried is None ==> r is None,
        match queried {
            Some(m) => match r {
                Some(w) => m & ENABLE_VIRTUAL_TERMINAL_PROCESSING == 0
                    && w & ENABLE_VIRTUAL_TERMINAL_PROCESSING == ENABLE_VIRTUAL_TERMINAL_PROCESSING
                    && w & !ENABLE_VIRTUAL_TERMINAL_PROCESSING == m
                    & !ENABLE_VIRTUAL_TERMINAL_PROCESSING,
                None => vt_enabled(m),
            },
            None => true,
        },
{
    match queried {
        None => None,
        Some(m) => {
            if m & ENABLE_VIRTUAL_TERMINAL_PROCESSING == ENABLE_VIRTUAL_TERMINAL_PROCESSING {
                None
            } else {
                let w = m | ENABLE_VIRTUAL_TERMINAL_PROCESSING;
                proof {
                    lemma_set_vt_bit(m);
                }
                Some(w)
            }
        },
    }
}

proof fn lemma_set_vt_bit(m: u32)
    requires
        m & 4u32 != 4u32,
    ensures
        m & 4u32 == 0,
        (m | 4u32) & 4u32 == 4u32,
        (m | 4u32) & !4u32 == m & !4u32,
{
    assert(m & 4u32 != 4u32 ==> m & 4u32 == 0) by (bit_vector);
    assert((m | 4u32) & 4u32 == 4u32) by (bit_vector);
    assert((m | 4u32) & !4u32 == m & !4u32) by (bit_vector);
}

/// Running the toggle a second time on the same console changes nothing: the
/// second pass writes nothing, and the mode is the one that the first left.
pub proof fn lemma_toggle_idempotent(mode: Option<u32>)
    ensures
        mode_write_spec(mode_after_toggle(mode)) is None,
        mode_after_toggle(mode_after_toggle(mode)) == mode_after_toggle(mode),
{
    if let Some(m) = mode {
        if !vt_enabled(m) {
            lemma_set_vt_bit(m);
        }
    }
}

/// The toggle leaves every bit of the mode but the virtual terminal bit as it
/// was, turns that bit on, and leaves a mode that had it untouched; an output
/// that is not a console stays so.
pub proof fn lemma_toggle_preserves_other_bits(mode: Option<u32>)
    ensures
        match mode {
            Some(m) => match mode_after_toggle(mode) {
                Some(m2) => vt_enabled(m2) && m2 & !ENABLE_VIRTUAL_TERMINAL_PROCESSING == m
                    & !ENABLE_VIRTUAL_TERMINAL_PROCESSING && (vt_enabled(m) ==> m2 == m),
                None => false,
            },
            None => mode_after_toggle(mode) is None,
        },
{
    if let Some(m) = mode {
        if !vt_enabled(m) {
            lemma_set_vt_bit(m);
        }
    }
}

} // verus!
