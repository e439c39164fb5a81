//! The ingredient catalog.

use vstd::prelude::*;
use vstd::string::*;
use crate::dispense::{DispenseParameters, default_parameters};

verus! {

/// What the operator screen shows of an ingredient.
#[derive(Clone, Debug)]
pub struct UiData {
    pub id: usize,
    pub label: String,
    pub img: String,
    pub serving_size: usize,
    pub ingredients: String,
}

impl UiData {
    /// The entry shown when no catalog is available.
    pub open spec fn is_default(&self) -> bool {
        &&& self.id == 0
        &&& self.label@ == "Default snack"@
        &&& self.img@ == "caldo-icon-blue.svg"@
        &&& self.serving_size == 20
        &&& self.ingredients@ == "Potential allergens if Ichibu is loaded"@
    }
}

impl Default for UiData {
    fn default() -> (d: Self)
        ensures
            d.is_default(),
    {
        UiData {
            id: 0,
            label: String::from_str("Default snack"),
            img: String::from_str("caldo-icon-blue.svg"),
            serving_size: 20,
            ingredients: String::from_str("Potential allergens if Ichibu is loaded"),
        }
    }
}

/// A product the machine can dispense. Setpoints are in grams.
#[derive(Clone, Debug)]
pub struct Ingredient {
    pub name: String,
    pub id: usize,
    pub max_setpoint: usize,
    pub min_setpoint: usize,
    pub ui_data: UiData,
    pub dispense_settings: DispenseParameters,
}

impl Ingredient {
    /// The ingredient assumed when no catalog is available.
    pub open spec fn is_default(&self) -> bool {
        &&& self.name@ == "Default Snack"@
        &&& self.id == 0
        &&& self.max_setpoint == 25
        &&& self.min_setpoint == 10
        &&& self.ui_data.is_default()
        &&& self.dispense_settings == default_parameters()
    }
}

impl Default for Ingredient {
    fn default() -> (d: Self)
        ensures
            d.is_default(),
    {
        Ingredient {
            name: String::from_str("Default Snack"),
            id: 0,
            max_setpoint: 25,
            min_setpoint: 10,
            ui_data: UiData::default(),
            dispense_settings: DispenseParameters::default(),
        }
    }
}

/// The catalog, in the order it was configured.
#[derive(Clone, Debug)]
pub struct Ingredients {
    pub ingredients: Vec<Ingredient>,
}

impl Default for Ingredients {
    fn default() -> (d: Self)
        ensures
            d.ingredients@.len() == 1,
            d.ingredients@[0].is_default(),
    {
        let mut v: Vec<Ingredient> = Vec::new();
        v.push(Ingredient::default());
        Ingredients { ingredients: v }
    }
}

impl Ingredients {
    /// Position of the first ingredient with identifier `id`.
    pub fn position_of(&self, id: usize) -> (r: Option<usize>)
        ensures
            match r {
                Some(i) => i < self.ingredients@.len() && self.ingredients@[i as int].id == id
                    && forall|j: int| 0 <= j < i ==> self.ingredients@[j].id != id,
                None => forall|j: int| 0 <= j < self.ingredients@.len() ==> self.ingredients@[j].id != id,
            },
    {
        let mut i: usize = 0;
        while i < self.ingredients.len()
            invariant
                i <= self.ingredients@.len(),
                forall|j: int| 0 <= j < i ==> self.ingredients@[j].id != id,
            decreases self.ingredients@.len() - i,
        {
            if self.ingredients[i].id == id {
                return Some(i);
            }
            i = i + 1;
        }
        None
    }

    /// Take out the first ingredient with identifier `id`.
    pub fn take(self, id: usize) -> (r: Option<Ingredient>)
        ensures
            match r {
                Some(ing) => exists|i: int|
                    0 <= i < self.ingredients@.len() && self.ingredients@[i] == ing && ing.id == id
                        && forall|j: int| 0 <= j < i ==> self.ingredients@[j].id != id,
                None => forall|j: int| 0 <= j < self.ingredients@.len() ==> self.ingredients@[j].id != id,
            },
    {
        match self.position_of(id) {
            Some(i) => {
                let mut v = self.ingredients;
                let ing = v.remove(i);
                Some(ing)
            },
            None => None,
        }
    }
}


/// What the operator screen lists: each ingredient's screen data in catalog
/// order, or the default entry alone when no catalog could be read.
pub fn get_ingredient_data(catalog: Option<Ingredients>) -> (r: Vec<UiData>)
    ensures
        match catalog {
            Some(c) => r@.len() == c.ingredients@.len()
                && forall|i: int| 0 <= i < r@.len() ==> r@[i] == c.ingredients@[i].ui_data,
            None => r@.len() == 1 && r@[0].is_default(),
        },
{
    match catalog {
        Some(c) => {
            let ghost all = c.ingredients@;
            let mut rest = c.ingredients;
            let mut out: Vec<UiData> = Vec::new();
            while rest.len() > 0
                invariant
                    out@.len() + rest@.len() == all.len(),
                    forall|i: int| 0 <= i < out@.len() ==> out@[i] == all[i].ui_data,
                    forall|i: int| 0 <= i < rest@.len() ==> rest@[i] == all[i + out@.len()],
                decreases rest@.len(),
            {
                let ing = rest.remove(0);
                out.push(ing.ui_data);
            }
            out
        },
        None => {
            let mut out: Vec<UiData> = Vec::new();
            out.push(UiData::default());
            out
        },
    }
}

} // verus!
