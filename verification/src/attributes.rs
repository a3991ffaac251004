//! The six ability scores.
//!
//! A character always carries exactly the six named attributes, looked up
//! case-sensitively by their fixed ids "str", "dex", "con", "int", "wis"
//! and "cha". For persistence they are projected to a plain list of six
//! integers in that fixed order.

use vstd::prelude::*;

use crate::text::str_eq;

verus! {

/// The six ability scores of a character. The set is fixed: it is never
/// resized, and every id outside the six is unknown.
#[derive(Clone, Copy, Debug, PartialEq, Eq, Structural)]
pub struct Attributes {
    pub strength: i32,
    pub dexterity: i32,
    pub constitution: i32,
    pub intelligence: i32,
    pub wisdom: i32,
    pub charisma: i32,
}

/// The value stored under an attribute id, or nothing for an unknown id.
pub open spec fn spec_attribute(a: Attributes, id: Seq<char>) -> Option<i32> {
    if id == "str"@ {
        Some(a.strength)
    } else if id == "dex"@ {
        Some(a.dexterity)
    } else if id == "con"@ {
        Some(a.constitution)
    } else if id == "int"@ {
        Some(a.intelligence)
    } else if id == "wis"@ {
        Some(a.wisdom)
    } else if id == "cha"@ {
        Some(a.charisma)
    } else {
        None
    }
}

/// The value stored under an attribute id, with zero standing in for an
/// unknown id.
pub open spec fn spec_attribute_or_zero(a: Attributes, id: Seq<char>) -> int {
    match spec_attribute(a, id) {
        Some(v) => v as int,
        None => 0,
    }
}

/// The attribute set after one id is overwritten; an unknown id changes
/// nothing.
pub open spec fn spec_set_attribute(a: Attributes, id: Seq<char>, value: i32) -> Attributes {
    if id == "str"@ {
        Attributes { strength: value, ..a }
    } else if id == "dex"@ {
        Attributes { dexterity: value, ..a }
    } else if id == "con"@ {
        Attributes { constitution: value, ..a }
    } else if id == "int"@ {
        Attributes { intelligence: value, ..a }
    } else if id == "wis"@ {
        Attributes { wisdom: value, ..a }
    } else if id == "cha"@ {
        Attributes { charisma: value, ..a }
    } else {
        a
    }
}

impl Attributes {
    /// All six scores at zero.
    pub fn zero() -> (r: Attributes)
        ensures
            r.strength == 0,
            r.dexterity == 0,
            r.constitution == 0,
            r.intelligence == 0,
            r.wisdom == 0,
            r.charisma == 0,
    {
        Attributes {
            strength: 0,
            dexterity: 0,
            constitution: 0,
            intelligence: 0,
            wisdom: 0,
            charisma: 0,
        }
    }

    /// Looks an attribute up by id; an unknown id is a soft absence.
    pub fn get_stat_val(&self, id: &str) -> (r: Option<i32>)
        ensures
            r == spec_attribute(*self, id@),
    {
        if str_eq(id, "str") {
            Some(self.strength)
        } else if str_eq(id, "dex") {
            Some(self.dexterity)
        } else if str_eq(id, "con") {
            Some(self.constitution)
        } else if str_eq(id, "int") {
            Some(self.intelligence)
        } else if str_eq(id, "wis") {
            Some(self.wisdom)
        } else if str_eq(id, "cha") {
            Some(self.charisma)
        } else {
            None
        }
    }

    /// Overwrites one attribute by id; an unknown id changes nothing.
    pub fn set_stat(&mut self, id: &str, value: i32)
        ensures
            *final(self) == spec_set_attribute(*old(self), id@, value),
    {
        if str_eq(id, "str") {
            self.strength = value;
        } else if str_eq(id, "dex") {
            self.dexterity = value;
        } else if str_eq(id, "con") {
            self.constitution = value;
        } else if str_eq(id, "int") {
            self.intelligence = value;
        } else if str_eq(id, "wis") {
            self.wisdom = value;
        } else if str_eq(id, "cha") {
            self.charisma = value;
        }
    }

    /// The six scores as a plain list, in the fixed persistence order
    /// str, dex, con, int, wis, cha.
    pub fn as_number_vec(&self) -> (r: Vec<i32>)
        ensures
            r@ == seq![
                self.strength,
                self.dexterity,
                self.constitution,
                self.intelligence,
                self.wisdom,
                self.charisma,
            ],
    {
        let mut r: Vec<i32> = Vec::new();
        r.push(self.strength);
        r.push(self.dexterity);
        r.push(self.constitution);
        r.push(self.intelligence);
        r.push(self.wisdom);
        r.push(self.charisma);
        proof {
            assert(r@ =~= seq![
                self.strength,
                self.dexterity,
                self.constitution,
                self.intelligence,
                self.wisdom,
                self.charisma,
            ]);
        }
        r
    }

    /// Reads six scores back from a persisted list, in the same fixed
    /// order. A list of any other length is rejected.
    pub fn from_number_vec(values: &Vec<i32>) -> (r: Option<Attributes>)
        ensures
            match r {
                Some(a) => values@.len() == 6 && a == (Attributes {
                    strength: values@[0],
                    dexterity: values@[1],
                    constitution: values@[2],
                    intelligence: values@[3],
                    wisdom: values@[4],
                    charisma: values@[5],
                }),
                None => values@.len() != 6,
            },
    {
        if values.len() != 6 {
            return None;
        }
        Some(
            Attributes {
                strength: values[0],
                dexterity: values[1],
                constitution: values[2],
                intelligence: values[3],
                wisdom: values[4],
                charisma: values[5],
            },
        )
    }
}

} // verus!
