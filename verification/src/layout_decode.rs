//! The dual-layout decoding layer: one stateful decoder per keyboard
//! layout, both driven with the same scancode byte for every examined
//! event. The decoders come from the `pc_keyboard` crate; this module
//! holds them opaquely and states what driving them does, over the
//! sequence of scancode bytes each decoder has consumed.

use vstd::prelude::*;

use pc_keyboard::layouts::{Jis109Key, Us104Key};
use pc_keyboard::{DecodedKey, HandleControl, Keyboard, ScancodeSet1};

verus! {

/// The concrete symbol a layout decodes an examined key event to: a
/// Unicode character, or a non-printable key named by its discriminant in
/// pc_keyboard's key-code order.
#[derive(Debug, Clone, Copy, PartialEq, Eq)]
pub enum DecodedSymbol {
    Unicode(char),
    Raw(u8),
}

/// The source-layout decoder with its live modifier and pending state: a
/// pc_keyboard Keyboard for the JIS layout. Opaque to the verifier; what
/// it will do next is determined by `jis_history` of it.
#[verifier::external_body]
pub struct JisLayoutState {
    inner: Keyboard<Jis109Key, ScancodeSet1>,
}

/// The target-layout decoder with its live modifier and pending state: a
/// pc_keyboard Keyboard for the US layout. Opaque to the verifier; what
/// it will do next is determined by `us_history` of it.
#[verifier::external_body]
pub struct UsLayoutState {
    inner: Keyboard<Us104Key, ScancodeSet1>,
}

/// The scancode bytes a source-layout decoder has consumed since it was
/// built, oldest first. They determine the decoder's state in full.
pub uninterp spec fn jis_history(state: JisLayoutState) -> Seq<u8>;

/// The scancode bytes a target-layout decoder has consumed since it was
/// built, oldest first. They determine the decoder's state in full.
pub uninterp spec fn us_history(state: UsLayoutState) -> Seq<u8>;

/// What the source layout decodes the next scancode byte to, after its
/// decoder has consumed `history`: a concrete symbol, or `None` when the
/// event is absorbed into pending state or yields no symbol.
pub uninterp spec fn jis_decode(history: Seq<u8>, scancode: u8) -> Option<DecodedSymbol>;

/// What the target layout decodes the next scancode byte to, after its
/// decoder has consumed `history`: a concrete symbol, or `None` when the
/// event is absorbed into pending state or yields no symbol.
pub uninterp spec fn us_decode(history: Seq<u8>, scancode: u8) -> Option<DecodedSymbol>;

impl JisLayoutState {
    /// Relies on pc_keyboard::Keyboard::new: a freshly built decoder has
    /// consumed no scancode bytes.
    #[verifier::external_body]
    pub(crate) fn new() -> (state: JisLayoutState)
        ensures
            jis_history(state) == Seq::<u8>::empty(),
    {
        JisLayoutState {
            inner: Keyboard::new(ScancodeSet1::new(), Jis109Key, HandleControl::Ignore),
        }
    }

    /// Relies on pc_keyboard::Keyboard::{add_byte, process_keyevent}:
    /// feeding one Set-1 scancode byte advances the decoder's state, and
    /// what comes back is a pure function of the bytes consumed so far
    /// and the byte fed.
    #[verifier::external_body]
    pub(crate) fn drive(&mut self, scancode: u8) -> (r: Option<DecodedSymbol>)
        ensures
            jis_history(*final(self)) == jis_history(*old(self)).push(scancode),
            r == jis_decode(jis_history(*old(self)), scancode),
    {
        let ev = match self.inner.add_byte(scancode) {
            Ok(Some(ev)) => ev,
            Ok(None) => return None,
            Err(_) => return None,
        };
        match self.inner.process_keyevent(ev) {
            Some(DecodedKey::Unicode(c)) => Some(DecodedSymbol::Unicode(c)),
            Some(DecodedKey::RawKey(k)) => Some(DecodedSymbol::Raw(k as u8)),
            None => None,
        }
    }
}

impl UsLayoutState {
    /// Relies on pc_keyboard::Keyboard::new: a freshly built decoder has
    /// consumed no scancode bytes.
    #[verifier::external_body]
    pub(crate) fn new() -> (state: UsLayoutState)
        ensures
            us_history(state) == Seq::<u8>::empty(),
    {
        UsLayoutState {
            inner: Keyboard::new(ScancodeSet1::new(), Us104Key, HandleControl::Ignore),
        }
    }

    /// Relies on pc_keyboard::Keyboard::{add_byte, process_keyevent}:
    /// feeding one Set-1 scancode byte advances the decoder's state, and
    /// what comes back is a pure function of the bytes consumed so far
    /// and the byte fed.
    #[verifier::external_body]
    pub(crate) fn drive(&mut self, scancode: u8) -> (r: Option<DecodedSymbol>)
        ensures
            us_history(*final(self)) == us_history(*old(self)).push(scancode),
            r == us_decode(us_history(*old(self)), scancode),
    {
        let ev = match self.inner.add_byte(scancode) {
            Ok(Some(ev)) => ev,
            Ok(None) => return None,
            Err(_) => return None,
        };
        match self.inner.process_keyevent(ev) {
            Some(DecodedKey::Unicode(c)) => Some(DecodedSymbol::Unicode(c)),
            Some(DecodedKey::RawKey(k)) => Some(DecodedSymbol::Raw(k as u8)),
            None => None,
        }
    }
}

} // verus!
