//! A worked example of a block state type: the state of a liquid block,
//! with a boolean `falling` property and an integer `level` property over
//! `0..3`. Its definition table enumerates the six combinations in odometer
//! order: `falling` (declared first) varies fastest.

use vstd::prelude::*;

use crate::definition::{key_index, props_model, Properties, ReflectProperties};
use crate::property::{values_model, PropertyDef, PropertyModel, ReflectProperty};
use crate::text::str_eq;
use crate::value::{ValueModel, ValueUntyped};

verus! {

/// The state of a liquid block: whether it is falling, and its fill level
/// `0..3`. The default state is still and empty.
#[derive(Clone, Copy, Debug, PartialEq, Eq, Structural, Hash)]
pub struct LiquidState {
    /// Whether the liquid is falling; the property `"falling"`.
    pub falling: bool,
    /// The fill level, `0` to `2`; the property `"level"`.
    pub level: u8,
}

/// The declared properties of [`LiquidState`]: `"falling"` over
/// `[false, true]`, then `"level"` over `[0, 1, 2]`.
pub open spec fn liquid_properties() -> Seq<PropertyModel> {
    seq![
        PropertyModel {
            key: "falling"@,
            domain: seq![ValueModel::Boolean(false), ValueModel::Boolean(true)],
        },
        PropertyModel {
            key: "level"@,
            domain: seq![
                ValueModel::Integer(0),
                ValueModel::Integer(1),
                ValueModel::Integer(2),
            ],
        },
    ]
}

/// Where by-key lookup lands among the liquid properties: `"falling"` is
/// first, `"level"` second, everything else misses.
proof fn lemma_liquid_key_index(key: Seq<char>)
    ensures
        key_index(liquid_properties(), key) == if key == "falling"@ {
            0int
        } else if key == "level"@ {
            1int
        } else {
            -1int
        },
{
    let props = liquid_properties();
    reveal_strlit("falling");
    reveal_strlit("level");
    assert("falling"@.len() == 7 && "level"@.len() == 5);
    let tail = props.drop_first();
    assert(tail =~= seq![props[1]]);
    assert(tail.drop_first() =~= Seq::<PropertyModel>::empty());
    assert(key_index(tail.drop_first(), key) == -1);
    assert(tail[0].key == "level"@);
    assert(key_index(tail, key) == if key == "level"@ {
        0int
    } else {
        -1int
    });
}

/// Membership in the `"falling"` domain is being a boolean.
proof fn lemma_falling_domain(v: ValueModel)
    ensures
        liquid_properties()[0].domain.contains(v) <==> v is Boolean,
{
    let dom = liquid_properties()[0].domain;
    if v is Boolean {
        if v == ValueModel::Boolean(false) {
            assert(dom[0] == v);
        } else {
            assert(dom[1] == v);
        }
        assert(dom.contains(v));
    }
    if dom.contains(v) {
        let i = choose|i: int| 0 <= i < dom.len() && dom[i] == v;
        assert(i == 0 || i == 1);
    }
}

/// Membership in the `"level"` domain is being an integer below 3.
proof fn lemma_level_domain(v: ValueModel)
    ensures
        liquid_properties()[1].domain.contains(v) <==> (v matches ValueModel::Integer(n) && n
            < 3),
{
    let dom = liquid_properties()[1].domain;
    if v matches ValueModel::Integer(n) && n < 3 {
        let n = v->Integer_0;
        assert(dom[n as int] == v);
        assert(dom.contains(v));
    }
    if dom.contains(v) {
        let i = choose|i: int| 0 <= i < dom.len() && dom[i] == v;
        assert(i == 0 || i == 1 || i == 2);
    }
}


impl ReflectProperties for LiquidState {
    open spec fn spec_properties() -> Seq<PropertyModel> {
        liquid_properties()
    }

    open spec fn spec_values(self) -> Seq<ValueModel> {
        seq![ValueModel::Boolean(self.falling), ValueModel::Integer(self.level)]
    }

    proof fn lemma_values_len(self) {
    }

    proof fn lemma_values_injective(a: Self, b: Self) {
        assert(a.spec_values()[0] == b.spec_values()[0]);
        assert(a.spec_values()[1] == b.spec_values()[1]);
    }

    fn dyn_eq(&self, other: &Self) -> (r: bool) {
        self.falling == other.falling && self.level == other.level
    }

    fn values(&self) -> (r: Vec<ValueUntyped>) {
        let r = vec![
            ValueUntyped::Boolean(self.falling),
            ValueUntyped::Integer(self.level),
        ];
        proof {
            assert(values_model(r@) =~= self.spec_values());
        }
        r
    }

    fn get(&self, index: &PropertyDef) -> (r: Option<ValueUntyped>) {
        proof {
            lemma_liquid_key_index(index@.key);
        }
        if str_eq(index.key(), "falling") {
            Some(ValueUntyped::Boolean(self.falling))
        } else if str_eq(index.key(), "level") {
            Some(ValueUntyped::Integer(self.level))
        } else {
            None
        }
    }

    fn set(&mut self, index: &PropertyDef, value: &ValueUntyped) -> (r: bool) {
        proof {
            lemma_liquid_key_index(index@.key);
            lemma_falling_domain(value@);
            lemma_level_domain(value@);
        }
        if str_eq(index.key(), "falling") {
            match value {
                ValueUntyped::Boolean(b) => {
                    self.falling = *b;
                    proof {
                        assert(self.spec_values() =~= old(self).spec_values().update(
                            0,
                            ValueModel::Boolean(self.falling),
                        ));
                    }
                    true
                },
                _ => false,
            }
        } else if str_eq(index.key(), "level") {
            match value {
                ValueUntyped::Integer(n) => {
                    if *n < 3 {
                        self.level = *n;
                        proof {
                            assert(self.spec_values() =~= old(self).spec_values().update(
                                1,
                                ValueModel::Integer(self.level),
                            ));
                        }
                        true
                    } else {
                        false
                    }
                },
                _ => false,
            }
        } else {
            false
        }
    }
}


impl Properties for LiquidState {
    open spec fn spec_default() -> Self {
        LiquidState { falling: false, level: 0 }
    }

    open spec fn spec_from_values(vals: Seq<ValueModel>) -> Self {
        LiquidState {
            falling: match vals[0] {
                ValueModel::Boolean(b) => b,
                _ => false,
            },
            level: match vals[1] {
                ValueModel::Integer(n) => n,
                _ => 0,
            },
        }
    }

    proof fn lemma_from_values(vals: Seq<ValueModel>) {
        lemma_falling_domain(vals[0]);
        lemma_level_domain(vals[1]);
        assert(Self::spec_from_values(vals).spec_values() =~= vals);
    }

    fn properties() -> (r: Vec<PropertyDef>) {
        let falling = PropertyDef::new(
            "falling",
            vec![ValueUntyped::Boolean(false), ValueUntyped::Boolean(true)],
        );
        let level = PropertyDef::new(
            "level",
            vec![
                ValueUntyped::Integer(0),
                ValueUntyped::Integer(1),
                ValueUntyped::Integer(2),
            ],
        );
        let r = vec![falling, level];
        proof {
            assert(r@[0]@.domain =~= liquid_properties()[0].domain);
            assert(r@[1]@.domain =~= liquid_properties()[1].domain);
            assert(r@[0]@ =~= liquid_properties()[0]);
            assert(r@[1]@ =~= liquid_properties()[1]);
            assert(props_model(r@) =~= Self::spec_properties());
        }
        r
    }

    fn default_state() -> (r: Self) {
        LiquidState { falling: false, level: 0 }
    }

    fn from_values(vals: &Vec<ValueUntyped>) -> (r: Self) {
        proof {
            lemma_falling_domain(vals@[0]@);
            lemma_level_domain(vals@[1]@);
        }
        let falling = match &vals[0] {
            ValueUntyped::Boolean(b) => *b,
            _ => false,
        };
        let level = match &vals[1] {
            ValueUntyped::Integer(n) => *n,
            _ => 0,
        };
        let r = LiquidState { falling, level };
        proof {
            assert(values_model(vals@)[0] == vals@[0]@);
            assert(values_model(vals@)[1] == vals@[1]@);
        }
        r
    }
}


} // verus!
