//! Which material each instance gets.
//!
//! The material values themselves live with the renderer; here a material is
//! known by its position in the configured list.
use vstd::prelude::*;

verus! {

/// How the next instance picks its material.
#[derive(Clone, Copy, Debug, PartialEq, Eq, Structural)]
pub enum MaterialMode {
    /// Take the material at this position of the list.
    MaterialIndex(usize),
    /// Draw a fresh random material.
    Random,
}

/// The material an instance is drawn with.
#[derive(Clone, Copy, Debug, PartialEq, Eq, Structural)]
pub enum MaterialChoice {
    /// The material at this position of the configured list.
    Listed(usize),
    /// A freshly drawn random material.
    Random,
    /// The fixed material that a primitive was registered with.
    Own,
}

/// The turtle's material register: the mode and the length of the configured
/// material list (0 when none is configured).
#[derive(Clone, Copy, Debug, PartialEq, Eq, Structural)]
pub struct MaterialState {
    pub material_mode: MaterialMode,
    pub material_count: usize,
}

/// The index that follows `i` (it stays at the largest index).
pub open spec fn next_index(i: usize) -> usize {
    if i < usize::MAX {
        (i + 1) as usize
    } else {
        i
    }
}

impl MaterialState {
    /// No material list: every instance draws a random material.
    pub fn random() -> (r: MaterialState)
        ensures
            r.material_mode == MaterialMode::Random,
            r.material_count == 0,
    {
        MaterialState { material_mode: MaterialMode::Random, material_count: 0 }
    }

    /// A list of `material_count` materials, starting at `start_material`.
    pub fn with_materials(material_count: usize, start_material: usize) -> (r: MaterialState)
        ensures
            r.material_mode == MaterialMode::MaterialIndex(start_material),
            r.material_count == material_count,
    {
        MaterialState { material_mode: MaterialMode::MaterialIndex(start_material), material_count }
    }

    /// An index inside the list selects that material; an index past its end,
    /// or the random mode, selects a random one.
    pub open spec fn select_spec(self) -> MaterialChoice {
        match self.material_mode {
            MaterialMode::MaterialIndex(i) => if i < self.material_count {
                MaterialChoice::Listed(i)
            } else {
                MaterialChoice::Random
            },
            MaterialMode::Random => MaterialChoice::Random,
        }
    }

    pub fn get_material(&self) -> (r: MaterialChoice)
        ensures
            r == self.select_spec(),
    {
        match self.material_mode {
            MaterialMode::MaterialIndex(i) => if i < self.material_count {
                MaterialChoice::Listed(i)
            } else {
                MaterialChoice::Random
            },
            MaterialMode::Random => MaterialChoice::Random,
        }
    }

    /// Without a list nothing changes. With one, an explicit index is taken as
    /// it is, and no index means the one after the current index (after the
    /// random mode, index 1).
    pub open spec fn set_index_spec(self, index: Option<usize>) -> MaterialState {
        if self.material_count == 0 {
            self
        } else {
            let new_index = match index {
                Some(i) => i,
                None => match self.material_mode {
                    MaterialMode::MaterialIndex(i) => next_index(i),
                    MaterialMode::Random => 1,
                },
            };
            MaterialState { material_mode: MaterialMode::MaterialIndex(new_index), ..self }
        }
    }

    pub fn set_index(&mut self, index: Option<usize>)
        ensures
            *final(self) == old(self).set_index_spec(index),
    {
        if self.material_count > 0 {
            let new_index = match index {
                Some(i) => i,
                None => match self.material_mode {
                    MaterialMode::MaterialIndex(i) => if i < usize::MAX {
                        i + 1
                    } else {
                        i
                    },
                    MaterialMode::Random => 1,
                },
            };
            self.material_mode = MaterialMode::MaterialIndex(new_index);
        }
    }
}

} // verus!
