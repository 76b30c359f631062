use vstd::prelude::*;

verus! {

/// A light that is either switched on or switched off.
pub struct FlashLight {
    is_on: bool,
}

impl FlashLight {
    /// Whether the light is switched on.
    pub closed spec fn lit(&self) -> bool {
        self.is_on
    }

    /// A light in the given state.
    pub fn new(is_on: bool) -> (light: Self)
        ensures
            light.lit() == is_on,
    {
        FlashLight { is_on }
    }

    /// Switches the light on if it was off, and off if it was on.
    pub fn toggle(&mut self)
        ensures
            final(self).lit() == !old(self).lit(),
    {
        self.is_on = !self.is_on;
    }

    /// Whether the light is switched on.
    pub fn is_on(&self) -> (on: bool)
        ensures
            on == self.lit(),
    {
        self.is_on
    }

    /// The light's colour: the intensity of its red, green and blue
    /// channels, each one when the light is on and zero when it is off.
    pub fn get_light(&self) -> (light: Vec<u8>)
        ensures
            light@ == if self.lit() {
                seq![1u8, 1u8, 1u8]
            } else {
                seq![0u8, 0u8, 0u8]
            },
    {
        let level: u8 = if self.is_on {
            1
        } else {
            0
        };
        let mut light: Vec<u8> = Vec::new();
        light.push(level);
        light.push(level);
        light.push(level);
        assert(light@ =~= seq![level, level, level]);
        light
    }
}

} // verus!
