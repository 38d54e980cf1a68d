//! The controller's register map and the fixed command sequences built from
//! it: one-byte opcodes, each followed by zero or more operand bytes.

use vstd::prelude::*;

verus! {

/// Set Column Address. Operands: start and end column of display data RAM.
/// Each pixel takes 4 bits in display memory, so `end - start` should be half
/// the width in pixels.
pub const SETCOLADDR: u8 = 0x15;

/// Set Row Address. Operands: start and end row of display data RAM.
pub const SETROWADDR: u8 = 0x75;

/// Set Contrast Current. Operand: contrast from `0` to `0x7F`.
pub const SETCONTRAST: u8 = 0x81;

/// Set Current Range to full. No operand.
pub const SETCURRENT_FULL: u8 = 0x84 + 0x03;

/// Set Re-Map. Operand: a bitmask selecting COM splitting, COM remapping,
/// address increment mode, nibble remapping and column remapping.
pub const SETREMAP: u8 = 0xA0;

/// Set Display Start Line. Operand: start line from 0 to 80.
pub const SETSTARTLINE: u8 = 0xA1;

/// Set Display Offset. Operand: offset from 0 to 80.
pub const SETOFFSET: u8 = 0xA2;

/// Enter Normal Display mode. No operand.
pub const NORMALDISPLAY: u8 = 0xA4;

/// Enter Inverse Display mode. No operand.
pub const INVERTDISPLAY: u8 = 0xA7;

/// Set Multiplex Ratio. Operand: ratio from 16MUX to 80MUX.
pub const SETMULTIPLEX: u8 = 0xA8;

/// Set Master Configuration: selects the external Vcc power supply.
pub const MASTERCONFIG: u8 = 0xAD;

/// Set Display Off. No operand.
pub const DISPLAYOFF: u8 = 0xAE;

/// Set Display On. No operand.
pub const DISPLAYON: u8 = 0xAF;

/// Set Pre-charge Compensation Enable. Operand: `0x08` on reset, `0x28` to
/// enable compensation.
pub const SETPRECHARGECOMPENABLE: u8 = 0xB0;

/// Set Phase Length. Operand: high nibble is the pre-charge phase length,
/// low nibble the reset phase length.
pub const SETPHASELEN: u8 = 0xB1;

/// Set Row Period. Operand: a value between `0x14` and `0x7F`; lower values
/// yield higher frame rates and less defined grays.
pub const SETROWPERIOD: u8 = 0xB2;

/// Set Display Clock Divide Ratio. Operand: high nibble is the oscillator
/// frequency, low nibble the divide ratio minus one.
pub const SETCLOCK: u8 = 0xB3;

/// Set Pre-charge level. Operand: `0x00` on reset, `0x03` recommended.
pub const SETPRECHARGECOMP: u8 = 0xB4;

/// Set Gray Scale Table. Operands: the eight table entries.
pub const SETGRAYTABLE: u8 = 0xB8;

/// Set Vcomh Voltage. Operand: the COM pin high voltage level.
pub const SETVCOMLEVEL: u8 = 0xBE;

/// Set Segment Low Voltage. Operand: `0x02` keeps the VSL pin unconnected,
/// `0x0E` expects a capacitor between Vsl and Vss.
pub const SETVSL: u8 = 0xBF;

/// Graphic Acceleration Command Options. Operand: a bitmask; bit 0 enables
/// rectangle fill on draw.
pub const GFXACCEL: u8 = 0x23;

/// Draw Rectangle. Operands: start column, start row, end column, end row,
/// and the grayscale pattern to fill with.
pub const DRAWRECT: u8 = 0x24;

/// The 40-byte initialization sequence, sent in Command mode as one write.
/// The display is left powered off; callers must explicitly power on.
pub open spec fn spec_init_sequence() -> Seq<u8> {
    seq![
        // Turn the display off.
        DISPLAYOFF,
        // Set the oscillator division.
        SETCLOCK, 0xF1,
        // Set the multiplex ratio to a 1/64 duty cycle.
        SETMULTIPLEX, 0x3F,
        // Set the display offset to 76.
        SETOFFSET, 0x4C,
        // Set the start line to 0.
        SETSTARTLINE, 0x00,
        // Set the master configuration to the DC/DC converter.
        MASTERCONFIG, 0x02,
        // Set segment remap: COM split, remap bottom-up, horizontal increment.
        SETREMAP, 0x50,
        // Set the full current range.
        SETCURRENT_FULL,
        // Set the gray color palette.
        SETGRAYTABLE, 0x01, 0x11, 0x22, 0x32, 0x43, 0x54, 0x65, 0x76,
        // Set the contrast to maximum.
        SETCONTRAST, 0x7F,
        // Set the row period.
        SETROWPERIOD, 0x51,
        // Set the phase length.
        SETPHASELEN, 0x55,
        // Set the pre-charge level to 2.
        SETPRECHARGECOMP, 0x02,
        // Enable pre-charge compensation.
        SETPRECHARGECOMPENABLE, 0x28,
        // Set the high voltage level of the COM pin (0.80 * Vref).
        SETVCOMLEVEL, 0x1C,
        // Set the low voltage level of the SEG pin.
        SETVSL, 0x0F,
        // Set the display to the non-inverted configuration.
        NORMALDISPLAY,
        // Turn on the Draw Rectangle command only, used to clear the screen.
        GFXACCEL, 0x01,
    ]
}

/// The 6-byte clear sequence: an accelerated rectangle fill of the whole
/// addressable area with the empty pattern.
pub open spec fn spec_clear_sequence() -> Seq<u8> {
    seq![DRAWRECT, 0x00, 0x00, 0x3F, 0x3F, 0x00]
}

/// The 6-byte blit preamble: the full column address range (each pixel takes
/// 4 bits) followed by the full row address range (64 rows).
pub open spec fn spec_blit_preamble() -> Seq<u8> {
    seq![SETCOLADDR, 0x00, 0x3F, SETROWADDR, 0x00, 0x3F]
}

/// The single-byte power command: display on or display off.
pub open spec fn spec_power_command(on: bool) -> Seq<u8> {
    if on {
        seq![DISPLAYON]
    } else {
        seq![DISPLAYOFF]
    }
}

/// The single-byte inversion command: inverse or normal display.
pub open spec fn spec_invert_command(inverted: bool) -> Seq<u8> {
    if inverted {
        seq![INVERTDISPLAY]
    } else {
        seq![NORMALDISPLAY]
    }
}

/// Builds the initialization sequence.
pub fn init_sequence() -> (r: Vec<u8>)
    ensures
        r@ == spec_init_sequence(),
{
    let r: Vec<u8> = vec![
        DISPLAYOFF,
        SETCLOCK, 0xF1,
        SETMULTIPLEX, 0x3F,
        SETOFFSET, 0x4C,
        SETSTARTLINE, 0x00,
        MASTERCONFIG, 0x02,
        SETREMAP, 0x50,
        SETCURRENT_FULL,
        SETGRAYTABLE, 0x01, 0x11, 0x22, 0x32, 0x43, 0x54, 0x65, 0x76,
        SETCONTRAST, 0x7F,
        SETROWPERIOD, 0x51,
        SETPHASELEN, 0x55,
        SETPRECHARGECOMP, 0x02,
        SETPRECHARGECOMPENABLE, 0x28,
        SETVCOMLEVEL, 0x1C,
        SETVSL, 0x0F,
        NORMALDISPLAY,
        GFXACCEL, 0x01,
    ];
    proof {
        assert(r@ =~= spec_init_sequence());
    }
    r
}

/// Builds the clear sequence.
pub fn clear_sequence() -> (r: Vec<u8>)
    ensures
        r@ == spec_clear_sequence(),
{
    let r: Vec<u8> = vec![DRAWRECT, 0x00, 0x00, 0x3F, 0x3F, 0x00];
    proof {
        assert(r@ =~= spec_clear_sequence());
    }
    r
}

/// Builds the blit preamble sequence.
pub fn blit_preamble_sequence() -> (r: Vec<u8>)
    ensures
        r@ == spec_blit_preamble(),
{
    let r: Vec<u8> = vec![SETCOLADDR, 0x00, 0x3F, SETROWADDR, 0x00, 0x3F];
    proof {
        assert(r@ =~= spec_blit_preamble());
    }
    r
}

} // verus!
