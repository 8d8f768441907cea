use vstd::prelude::*;

verus! {

/// `WS_POPUP`: a window without an owner frame.
pub const STYLE_POPUP: u32 = 0x8000_0000;
/// `WS_VISIBLE`.
pub const STYLE_VISIBLE: u32 = 0x1000_0000;
/// `WS_CLIPSIBLINGS`: sibling windows are clipped when painting.
pub const STYLE_CLIP_SIBLINGS: u32 = 0x0400_0000;

/// `WS_EX_LAYERED`: per-pixel alpha composition.
pub const EX_LAYERED: u32 = 0x0008_0000;
/// `WS_EX_TRANSPARENT`: mouse input passes to the window beneath.
pub const EX_TRANSPARENT: u32 = 0x0000_0020;
/// `WS_EX_TOOLWINDOW`: not listed by task switchers.
pub const EX_TOOL_WINDOW: u32 = 0x0000_0080;
/// `WS_EX_NOACTIVATE`: never becomes the foreground window on its own.
pub const EX_NO_ACTIVATE: u32 = 0x0800_0000;

/// The extended-style bits that toggle with input activation.
pub const EX_INPUT_MASK: u32 = 0x0800_0020;

/// Whether every bit of `flag` is set in `bits`.
pub open spec fn has_flag(bits: u32, flag: u32) -> bool {
    bits & flag == flag
}

/// The window style of the overlay: popup, visible, clipping siblings.
#[derive(Clone, Copy, Debug, PartialEq, Eq, Structural)]
pub struct WindowStyle {
    pub bits: u32,
}

impl WindowStyle {
    /// The style applied to the overlay at creation, and nothing else.
    pub fn overlay() -> (r: WindowStyle)
        ensures
            r.bits == STYLE_POPUP | STYLE_VISIBLE | STYLE_CLIP_SIBLINGS,
            has_flag(r.bits, STYLE_POPUP),
            has_flag(r.bits, STYLE_VISIBLE),
            has_flag(r.bits, STYLE_CLIP_SIBLINGS),
    {
        let bits: u32 = STYLE_POPUP | STYLE_VISIBLE | STYLE_CLIP_SIBLINGS;
        assert(bits & 0x8000_0000u32 == 0x8000_0000u32) by (bit_vector)
            requires bits == 0x8000_0000u32 | 0x1000_0000u32 | 0x0400_0000u32;
        assert(bits & 0x1000_0000u32 == 0x1000_0000u32) by (bit_vector)
            requires bits == 0x8000_0000u32 | 0x1000_0000u32 | 0x0400_0000u32;
        assert(bits & 0x0400_0000u32 == 0x0400_0000u32) by (bit_vector)
            requires bits == 0x8000_0000u32 | 0x1000_0000u32 | 0x0400_0000u32;
        WindowStyle { bits }
    }

    pub fn is_popup(&self) -> (r: bool)
        ensures
            r == has_flag(self.bits, STYLE_POPUP),
    {
        self.bits & STYLE_POPUP == STYLE_POPUP
    }

    pub fn is_visible(&self) -> (r: bool)
        ensures
            r == has_flag(self.bits, STYLE_VISIBLE),
    {
        self.bits & STYLE_VISIBLE == STYLE_VISIBLE
    }

    pub fn clips_siblings(&self) -> (r: bool)
        ensures
            r == has_flag(self.bits, STYLE_CLIP_SIBLINGS),
    {
        self.bits & STYLE_CLIP_SIBLINGS == STYLE_CLIP_SIBLINGS
    }
}

/// The extended-style bits after switching input on (`accept`) or off:
/// input-transparent and no-activate cleared, or both set.
pub open spec fn input_bits(bits: u32, accept: bool) -> u32 {
    if accept {
        bits & !EX_INPUT_MASK
    } else {
        bits | EX_INPUT_MASK
    }
}

/// The extended window style of the overlay.
#[derive(Clone, Copy, Debug, PartialEq, Eq, Structural)]
pub struct ExStyle {
    pub bits: u32,
}

/// The bits of `bits` that input activation leaves alone.
pub open spec fn fixed_bits(bits: u32) -> u32 {
    bits & !EX_INPUT_MASK
}

impl ExStyle {
    /// The extended style applied at creation: layered, input-transparent,
    /// tool window and no-activate.
    pub fn overlay() -> (r: ExStyle)
        ensures
            r.bits == EX_LAYERED | EX_TRANSPARENT | EX_TOOL_WINDOW | EX_NO_ACTIVATE,
            has_flag(r.bits, EX_LAYERED),
            has_flag(r.bits, EX_TRANSPARENT),
            has_flag(r.bits, EX_TOOL_WINDOW),
            has_flag(r.bits, EX_NO_ACTIVATE),
    {
        let bits: u32 = EX_LAYERED | EX_TRANSPARENT | EX_TOOL_WINDOW | EX_NO_ACTIVATE;
        assert(bits & 0x0008_0000u32 == 0x0008_0000u32 && bits & 0x20u32 == 0x20u32
            && bits & 0x80u32 == 0x80u32 && bits & 0x0800_0000u32 == 0x0800_0000u32)
            by (bit_vector)
            requires bits == 0x0008_0000u32 | 0x20u32 | 0x80u32 | 0x0800_0000u32;
        ExStyle { bits }
    }

    pub fn is_layered(&self) -> (r: bool)
        ensures
            r == has_flag(self.bits, EX_LAYERED),
    {
        self.bits & EX_LAYERED == EX_LAYERED
    }

    pub fn is_input_transparent(&self) -> (r: bool)
        ensures
            r == has_flag(self.bits, EX_TRANSPARENT),
    {
        self.bits & EX_TRANSPARENT == EX_TRANSPARENT
    }

    pub fn is_tool_window(&self) -> (r: bool)
        ensures
            r == has_flag(self.bits, EX_TOOL_WINDOW),
    {
        self.bits & EX_TOOL_WINDOW == EX_TOOL_WINDOW
    }

    pub fn is_no_activate(&self) -> (r: bool)
        ensures
            r == has_flag(self.bits, EX_NO_ACTIVATE),
    {
        self.bits & EX_NO_ACTIVATE == EX_NO_ACTIVATE
    }

    /// The style with the input bits switched: accepting input clears
    /// input-transparent and no-activate, refusing input sets both. Every
    /// other bit is kept.
    pub fn with_input(self, accept: bool) -> (r: ExStyle)
        ensures
            r.bits == input_bits(self.bits, accept),
            fixed_bits(r.bits) == fixed_bits(self.bits),
            has_flag(r.bits, EX_TRANSPARENT) == !accept,
            has_flag(r.bits, EX_NO_ACTIVATE) == !accept,
            has_flag(r.bits, EX_LAYERED) == has_flag(self.bits, EX_LAYERED),
            has_flag(r.bits, EX_TOOL_WINDOW) == has_flag(self.bits, EX_TOOL_WINDOW),
    {
        let b = self.bits;
        if accept {
            let n: u32 = b & !EX_INPUT_MASK;
            assert(n & !0x0800_0020u32 == b & !0x0800_0020u32
                && (n & 0x20u32 == 0x20u32) == false
                && (n & 0x0800_0000u32 == 0x0800_0000u32) == false
                && (n & 0x0008_0000u32 == 0x0008_0000u32) == (b & 0x0008_0000u32 == 0x0008_0000u32)
                && (n & 0x80u32 == 0x80u32) == (b & 0x80u32 == 0x80u32)) by (bit_vector)
                requires n == b & !0x0800_0020u32;
            ExStyle { bits: n }
        } else {
            let n: u32 = b | EX_INPUT_MASK;
            assert(n & !0x0800_0020u32 == b & !0x0800_0020u32
                && n & 0x20u32 == 0x20u32
                && n & 0x0800_0000u32 == 0x0800_0000u32
                && (n & 0x0008_0000u32 == 0x0008_0000u32) == (b & 0x0008_0000u32 == 0x0008_0000u32)
                && (n & 0x80u32 == 0x80u32) == (b & 0x80u32 == 0x80u32)) by (bit_vector)
                requires n == b | 0x0800_0020u32;
            ExStyle { bits: n }
        }
    }
}

} // verus!
