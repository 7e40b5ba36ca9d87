//! One display: its name, its brightness and its gamma, each as a percentage
//! between 1 and 100, and what the backend is asked when one of them changes.
use vstd::prelude::*;
use vstd::string::StringExecFns;
use crate::text::{digit, digit_char};

verus! {

/// One adjustable property of a display.
#[derive(Debug, Clone, Copy, PartialEq, Eq, Structural)]
pub enum DispProp {
    Brightness,
    R,
    G,
    B,
}

impl DispProp {
    /// The property that follows `self` in the cycle Brightness, R, G, B.
    pub open spec fn succ(self) -> DispProp {
        match self {
            DispProp::Brightness => DispProp::R,
            DispProp::R => DispProp::G,
            DispProp::G => DispProp::B,
            DispProp::B => DispProp::Brightness,
        }
    }

    /// The property that precedes `self` in the cycle Brightness, R, G, B.
    pub open spec fn pred(self) -> DispProp {
        match self {
            DispProp::Brightness => DispProp::B,
            DispProp::R => DispProp::Brightness,
            DispProp::G => DispProp::R,
            DispProp::B => DispProp::G,
        }
    }

    /// Moves to the following property, wrapping from B to Brightness.
    pub fn next(&mut self)
        ensures
            *final(self) == old(self).succ(),
    {
        *self = match self {
            DispProp::Brightness => DispProp::R,
            DispProp::R => DispProp::G,
            DispProp::G => DispProp::B,
            DispProp::B => DispProp::Brightness,
        };
    }

    /// Moves to the preceding property, wrapping from Brightness to B.
    pub fn prev(&mut self)
        ensures
            *final(self) == old(self).pred(),
    {
        *self = match self {
            DispProp::Brightness => DispProp::B,
            DispProp::R => DispProp::Brightness,
            DispProp::G => DispProp::R,
            DispProp::B => DispProp::G,
        };
    }
}

/// Four steps forward lead back to the start, and so do four steps back; a step
/// back undoes a step forward, and a step forward undoes a step back.
pub proof fn lemma_prop_cycle(prop: DispProp)
    ensures
        prop.succ().succ().succ().succ() == prop,
        prop.pred().pred().pred().pred() == prop,
        prop.succ().pred() == prop,
        prop.pred().succ() == prop,
{
}

/// The smallest percentage a property can take.
pub const MIN_PERCENT: u8 = 1;

/// The largest percentage a property can take.
pub const MAX_PERCENT: u8 = 100;

/// `v` is a percentage that a property can take.
pub open spec fn is_percent(v: int) -> bool {
    MIN_PERCENT <= v <= MAX_PERCENT
}

/// The percentage nearest to `v`.
pub open spec fn clamp_percent(v: int) -> u8 {
    if v < MIN_PERCENT {
        MIN_PERCENT
    } else if v > MAX_PERCENT {
        MAX_PERCENT
    } else {
        v as u8
    }
}

/// The percentage nearest to `v`.
pub fn clamp(v: u8) -> (p: u8)
    ensures
        p == clamp_percent(v as int),
        is_percent(p as int),
{
    if v < MIN_PERCENT {
        MIN_PERCENT
    } else if v > MAX_PERCENT {
        MAX_PERCENT
    } else {
        v
    }
}

/// The percentage `v` as a ratio with two decimals: 80 is written `0.80`.
pub open spec fn ratio(v: u8) -> Seq<char> {
    seq![digit(v as int / 100), '.', digit((v as int / 10) % 10), digit(v as int % 10)]
}

/// Appends the ratio of `v` to `out`.
fn push_ratio(out: &mut String, v: u8)
    ensures
        final(out)@ == old(out)@ + ratio(v),
{
    out.push(digit_char(v / 100));
    out.push('.');
    out.push(digit_char((v / 10) % 10));
    out.push(digit_char(v % 10));
}

/// The gamma of a display: a percentage for each colour channel.
#[derive(Debug, Clone, Copy, PartialEq, Eq, Structural)]
pub struct Gamma {
    pub r: u8,
    pub g: u8,
    pub b: u8,
}

impl Gamma {
    /// Each channel is a percentage.
    pub open spec fn wf(self) -> bool {
        is_percent(self.r as int) && is_percent(self.g as int) && is_percent(self.b as int)
    }

    /// This gamma with the channel `prop` set to `val`; `Brightness` is no channel
    /// and changes nothing.
    pub open spec fn with_channel(self, prop: DispProp, val: u8) -> Gamma {
        match prop {
            DispProp::R => Gamma { r: val, ..self },
            DispProp::G => Gamma { g: val, ..self },
            DispProp::B => Gamma { b: val, ..self },
            DispProp::Brightness => self,
        }
    }

    /// The three channels as ratios, separated by colons.
    pub open spec fn spec_gamma_string(self) -> Seq<char> {
        ratio(self.r) + ":"@ + ratio(self.g) + ":"@ + ratio(self.b)
    }

    /// The gamma that results when the channel `prop` is set to `val`, as the
    /// backend takes it: red, green and blue as ratios, separated by colons.
    pub fn to_gamma_string(self, prop: &DispProp, val: u8) -> (text: String)
        ensures
            text@ == self.with_channel(*prop, val).spec_gamma_string(),
    {
        let r: u8 = match prop {
            DispProp::R => val,
            _ => self.r,
        };
        let g: u8 = match prop {
            DispProp::G => val,
            _ => self.g,
        };
        let b: u8 = match prop {
            DispProp::B => val,
            _ => self.b,
        };
        let mut text = String::new();
        push_ratio(&mut text, r);
        text.append(":");
        push_ratio(&mut text, g);
        text.append(":");
        push_ratio(&mut text, b);
        text
    }
}

/// What the backend is asked to set on one display.
#[derive(Debug, PartialEq, Eq)]
pub struct BackendRequest {
    /// The display's name.
    pub name: String,
    /// The brightness, as a ratio.
    pub brightness: String,
    /// The gamma: red, green and blue as ratios, separated by colons.
    pub gamma: String,
}

/// A backend request as a plain value.
pub struct BackendRequestView {
    pub name: Seq<char>,
    pub brightness: Seq<char>,
    pub gamma: Seq<char>,
}

impl View for BackendRequest {
    type V = BackendRequestView;

    open spec fn view(&self) -> BackendRequestView {
        BackendRequestView { name: self.name@, brightness: self.brightness@, gamma: self.gamma@ }
    }
}

/// One display.
#[derive(Debug, PartialEq, Eq)]
pub struct Disp {
    pub name: String,
    pub brightness: u8,
    pub gamma: Gamma,
}

/// A display as a plain value.
pub struct DispView {
    pub name: Seq<char>,
    pub brightness: u8,
    pub gamma: Gamma,
}

impl View for Disp {
    type V = DispView;

    open spec fn view(&self) -> DispView {
        DispView { name: self.name@, brightness: self.brightness, gamma: self.gamma }
    }
}

impl DispView {
    /// Brightness and gamma are percentages.
    pub open spec fn wf(self) -> bool {
        is_percent(self.brightness as int) && self.gamma.wf()
    }

    /// The value of the property `prop`.
    pub open spec fn value(self, prop: DispProp) -> u8 {
        match prop {
            DispProp::Brightness => self.brightness,
            DispProp::R => self.gamma.r,
            DispProp::G => self.gamma.g,
            DispProp::B => self.gamma.b,
        }
    }

    /// This display with the property `prop` at `val`.
    pub open spec fn with_value(self, prop: DispProp, val: u8) -> DispView {
        match prop {
            DispProp::Brightness => DispView { brightness: val, ..self },
            _ => DispView { gamma: self.gamma.with_channel(prop, val), ..self },
        }
    }

    /// What the backend is asked in order to bring the display into this state.
    pub open spec fn request(self) -> BackendRequestView {
        BackendRequestView {
            name: self.name,
            brightness: ratio(self.brightness),
            gamma: self.gamma.spec_gamma_string(),
        }
    }

    /// The display after the request to set `prop` to `val`: the value is brought
    /// into range and stored where the backend applied it; where it did not, the
    /// display is as before.
    pub open spec fn set_value(self, prop: DispProp, val: u8, applied: bool) -> DispView {
        if applied {
            self.with_value(prop, clamp_percent(val as int))
        } else {
            self
        }
    }

    /// One more than the value of `prop`, brought into range.
    pub open spec fn incremented(self, prop: DispProp) -> u8 {
        clamp_percent(self.value(prop) + 1)
    }

    /// One less than the value of `prop`, brought into range.
    pub open spec fn decremented(self, prop: DispProp) -> u8 {
        clamp_percent(self.value(prop) - 1)
    }
}

impl Clone for Disp {
    fn clone(&self) -> (copy: Self)
        ensures
            copy == *self,
    {
        Disp { name: self.name.clone(), brightness: self.brightness, gamma: self.gamma }
    }
}

impl Disp {
    /// A display named `name`, with the given brightness and gamma, each brought
    /// into range.
    pub fn new(name: String, brightness: u8, gamma: Gamma) -> (disp: Disp)
        ensures
            disp@.wf(),
            disp.name == name,
            disp.brightness == clamp_percent(brightness as int),
            disp.gamma.r == clamp_percent(gamma.r as int),
            disp.gamma.g == clamp_percent(gamma.g as int),
            disp.gamma.b == clamp_percent(gamma.b as int),
    {
        Disp {
            name,
            brightness: clamp(brightness),
            gamma: Gamma { r: clamp(gamma.r), g: clamp(gamma.g), b: clamp(gamma.b) },
        }
    }

    /// The value of the property `prop`.
    pub fn value(&self, prop: DispProp) -> (val: u8)
        ensures
            val == self@.value(prop),
    {
        match prop {
            DispProp::Brightness => self.brightness,
            DispProp::R => self.gamma.r,
            DispProp::G => self.gamma.g,
            DispProp::B => self.gamma.b,
        }
    }

    /// The brightness as the backend takes it: a ratio.
    pub fn get_brightness(&self) -> (text: String)
        ensures
            text@ == ratio(self.brightness),
    {
        let mut text = String::new();
        push_ratio(&mut text, self.brightness);
        text
    }

    /// One more than the value of `prop`, brought into range.
    pub fn incremented(&self, prop: DispProp) -> (val: u8)
        ensures
            val == self@.incremented(prop),
            is_percent(val as int),
    {
        let wide: u16 = self.value(prop) as u16 + 1;
        if wide > MAX_PERCENT as u16 {
            MAX_PERCENT
        } else {
            wide as u8
        }
    }

    /// One less than the value of `prop`, brought into range.
    pub fn decremented(&self, prop: DispProp) -> (val: u8)
        ensures
            val == self@.decremented(prop),
            is_percent(val as int),
    {
        let wide: i16 = self.value(prop) as i16 - 1;
        if wide < MIN_PERCENT as i16 {
            MIN_PERCENT
        } else if wide > MAX_PERCENT as i16 {
            MAX_PERCENT
        } else {
            wide as u8
        }
    }

    /// What the backend is asked in order to set `prop` to `val`: the display's
    /// name, and brightness and gamma as they are once `val`, brought into range,
    /// has taken the place of the present value of `prop`.
    pub fn request(&self, prop: DispProp, val: u8) -> (request: BackendRequest)
        ensures
            request@ == self@.set_value(prop, val, true).request(),
    {
        let val: u8 = clamp(val);
        let brightness: u8 = match prop {
            DispProp::Brightness => val,
            _ => self.brightness,
        };
        let mut text = String::new();
        push_ratio(&mut text, brightness);
        BackendRequest {
            name: self.name.clone(),
            brightness: text,
            gamma: self.gamma.to_gamma_string(&prop, val),
        }
    }

    /// Sets `prop` to `val`, brought into range, where the backend applied the
    /// request for it; where it did not, the display stays as it is.
    pub fn set_value(&mut self, prop: DispProp, val: u8, applied: bool)
        ensures
            final(self)@ == old(self)@.set_value(prop, val, applied),
            old(self)@.wf() ==> final(self)@.wf(),
    {
        if applied {
            let val: u8 = clamp(val);
            match prop {
                DispProp::R => self.gamma.r = val,
                DispProp::G => self.gamma.g = val,
                DispProp::B => self.gamma.b = val,
                DispProp::Brightness => self.brightness = val,
            }
        }
    }

    /// Raises `prop` by one, up to the largest percentage, where the backend
    /// applied the request for it.
    pub fn increment_value(&mut self, prop: DispProp, applied: bool)
        ensures
            final(self)@ == old(self)@.set_value(prop, old(self)@.incremented(prop), applied),
            old(self)@.wf() ==> final(self)@.wf(),
    {
        let val: u8 = self.incremented(prop);
        self.set_value(prop, val, applied);
    }

    /// Lowers `prop` by one, down to the smallest percentage, where the backend
    /// applied the request for it.
    pub fn decrement_value(&mut self, prop: DispProp, applied: bool)
        ensures
            final(self)@ == old(self)@.set_value(prop, old(self)@.decremented(prop), applied),
            old(self)@.wf() ==> final(self)@.wf(),
    {
        let val: u8 = self.decremented(prop);
        self.set_value(prop, val, applied);
    }
}

/// A value outside the range is never stored: after an applied request the
/// property holds the nearest percentage, and no other property has changed.
pub proof fn lemma_set_value_clamps(disp: DispView, prop: DispProp, val: u8, other: DispProp)
    ensures
        disp.set_value(prop, val, true).value(prop) == clamp_percent(val as int),
        is_percent(disp.set_value(prop, val, true).value(prop) as int),
        other != prop ==> disp.set_value(prop, val, true).value(other) == disp.value(other),
        disp.set_value(prop, val, true).name == disp.name,
        disp.set_value(prop, val, false) == disp,
{
}

/// A step never leaves the range: one down from the smallest percentage is the
/// smallest percentage, one up from the largest is the largest, and anywhere
/// between the step is by one.
pub proof fn lemma_steps_stay_in_range(disp: DispView, prop: DispProp)
    ensures
        is_percent(disp.incremented(prop) as int),
        is_percent(disp.decremented(prop) as int),
        disp.value(prop) <= MIN_PERCENT ==> disp.decremented(prop) == MIN_PERCENT,
        disp.value(prop) >= MAX_PERCENT ==> disp.incremented(prop) == MAX_PERCENT,
        MIN_PERCENT < disp.value(prop) <= MAX_PERCENT ==> disp.decremented(prop) == disp.value(
            prop,
        ) - 1,
        MIN_PERCENT <= disp.value(prop) < MAX_PERCENT ==> disp.incremented(prop) == disp.value(
            prop,
        ) + 1,
{
}

/// Applying the same value a second time changes nothing, and asks the backend
/// for what it was asked the first time.
pub proof fn lemma_set_value_idempotent(disp: DispView, prop: DispProp, val: u8)
    ensures
        disp.set_value(prop, val, true).set_value(prop, val, true) == disp.set_value(
            prop,
            val,
            true,
        ),
        disp.set_value(prop, val, true).set_value(
            prop,
            clamp_percent(val as int),
            true,
        ) == disp.set_value(prop, val, true),
{
}

} // verus!
