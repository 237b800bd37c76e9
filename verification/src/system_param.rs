//! Accessors for reading and modifying a model of a known type.
//!
//! An accessor is asked for by the type that the caller expects. To ask for
//! another type than the slot holds is a mistake of the program; use
//! [`AtmosphereModel::to_ref`] and [`AtmosphereModel::to_mut`] to find out.

use vstd::prelude::*;
use crate::model::{AtmosphereModel, Atmospheric, AtmosphericView};

verus! {

/// Accessor for reading from an [`Atmospheric`] model of a known type.
pub struct Atmosphere<'w> {
    value: &'w Atmospheric,
}

impl<'w> View for Atmosphere<'w> {
    type V = AtmosphericView;

    closed spec fn view(&self) -> AtmosphericView {
        self.value@
    }
}

impl<'w> Atmosphere<'w> {
    /// The accessor for the model in `model`, which must be of the type `id`.
    pub fn get_param(model: &'w AtmosphereModel, id: u64) -> (param: Atmosphere<'w>)
        requires
            model@.id == id,
        ensures
            param@ == model@,
    {
        Atmosphere { value: model.to_ref(id).unwrap() }
    }

    /// The model.
    pub fn deref(&self) -> (model: &Atmospheric)
        ensures
            model@ == self@,
    {
        self.value
    }
}

/// Accessor for writing to an [`Atmospheric`] model of a known type.
pub struct AtmosphereMut<'w> {
    /// The model. What is written through it becomes the slot's model.
    pub value: &'w mut Atmospheric,
}

impl<'w> AtmosphereMut<'w> {
    /// The accessor for the model in `model`, which must be of the type `id`.
    pub fn get_param(model: &'w mut AtmosphereModel, id: u64) -> (param: AtmosphereMut<'w>)
        requires
            old(model)@.id == id,
        ensures
            param.value@ == old(model)@,
            final(model)@ == final(param.value)@,
    {
        AtmosphereMut { value: model.to_mut(id).unwrap() }
    }

    /// The model, for writing.
    pub fn deref_mut(&mut self) -> (model: &mut Atmospheric)
        ensures
            model@ == old(self).value@,
            final(self).value@ == final(model)@,
            final(final(self).value)@ == final(old(self).value)@,
    {
        &mut *self.value
    }
}

} // verus!
