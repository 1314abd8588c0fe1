//! The face table: eight physical sides, each with a label and a trackable
//! flag, plus the name of the vendor handler that receives the intervals.

use crate::config::{Config, ConfigDocument};
use vstd::prelude::*;

verus! {

/// UUID of the GATT characteristic that carries orientation notifications.
pub const ORIENTATION_CHARACTERISTIC_UUID: &'static str = "c7e70012-c847-11e6-8175-8c89a55d403c";

/// One physical side of the tracker: its id (1 to 8), a free-form label and
/// whether flipping to it starts a tracked interval.
#[derive(Debug, PartialEq)]
pub struct Side {
    pub side_num: u8,
    pub label: String,
    pub trackable: bool,
}

impl Clone for Side {
    fn clone(&self) -> (r: Self)
        ensures
            r == *self,
    {
        Side { side_num: self.side_num, label: self.label.clone(), trackable: self.trackable }
    }
}

/// The face table together with the name of the selected vendor handler.
#[derive(Debug, PartialEq)]
pub struct TimeularConfig {
    pub sides: [Side; 8],
    pub handler: String,
}

impl Clone for TimeularConfig {
    fn clone(&self) -> (r: Self)
        ensures
            r == *self,
    {
        let sides = [
            self.sides[0].clone(),
            self.sides[1].clone(),
            self.sides[2].clone(),
            self.sides[3].clone(),
            self.sides[4].clone(),
            self.sides[5].clone(),
            self.sides[6].clone(),
            self.sides[7].clone(),
        ];
        proof {
            assert(sides =~= self.sides);
        }
        TimeularConfig { sides, handler: self.handler.clone() }
    }
}

impl Config for TimeularConfig {

}

/// The face table the `timeular` key is created with: eight sides numbered
/// 1 to 8, unlabeled and trackable, and no handler selected.
pub open spec fn spec_is_default(c: TimeularConfig) -> bool {
    &&& c.handler@ == Seq::<char>::empty()
    &&& c.sides@.len() == 8
    &&& forall|i: int| 0 <= i < 8 ==> (#[trigger] c.sides@[i]).side_num == i + 1
    &&& forall|i: int| 0 <= i < 8 ==> (#[trigger] c.sides@[i]).label@ == Seq::<char>::empty()
    &&& forall|i: int| 0 <= i < 8 ==> (#[trigger] c.sides@[i]).trackable
}

impl Default for TimeularConfig {
    /// Eight sides numbered 1 to 8, unlabeled and trackable, with no
    /// handler selected.
    fn default() -> (r: Self)
        ensures
            spec_is_default(r),
    {
        TimeularConfig {
            sides: [
                Side { side_num: 1, label: String::new(), trackable: true },
                Side { side_num: 2, label: String::new(), trackable: true },
                Side { side_num: 3, label: String::new(), trackable: true },
                Side { side_num: 4, label: String::new(), trackable: true },
                Side { side_num: 5, label: String::new(), trackable: true },
                Side { side_num: 6, label: String::new(), trackable: true },
                Side { side_num: 7, label: String::new(), trackable: true },
                Side { side_num: 8, label: String::new(), trackable: true },
            ],
            handler: String::new(),
        }
    }
}

/// The first side in `sides` whose `side_num` equals `n`, if any.
pub open spec fn spec_find_side(sides: Seq<Side>, n: u8) -> Option<Side>
    decreases sides.len(),
{
    if sides.len() == 0 {
        None
    } else if sides[0].side_num == n {
        Some(sides[0])
    } else {
        spec_find_side(sides.drop_first(), n)
    }
}

/// A side id is trackable when it is present in the table and its
/// `trackable` flag is set; ids absent from the table are untrackable.
pub open spec fn spec_is_trackable(cfg: TimeularConfig, n: u8) -> bool {
    match spec_find_side(cfg.sides@, n) {
        Some(s) => s.trackable,
        None => false,
    }
}

/// A found side carries the id it was looked up by.
pub proof fn lemma_find_side_num(sides: Seq<Side>, n: u8)
    ensures
        spec_find_side(sides, n) matches Some(s) ==> s.side_num == n,
    decreases sides.len(),
{
    if sides.len() == 0 {
    } else if sides[0].side_num == n {
    } else {
        lemma_find_side_num(sides.drop_first(), n);
    }
}

proof fn lemma_find_side_skip(sides: Seq<Side>, n: u8, i: int)
    requires
        0 <= i < sides.len(),
        sides[i].side_num != n,
        spec_find_side(sides, n) == spec_find_side(sides.skip(i), n),
    ensures
        spec_find_side(sides, n) == spec_find_side(sides.skip(i + 1), n),
{
    assert(sides.skip(i).drop_first() =~= sides.skip(i + 1));
    assert(sides.skip(i)[0] == sides[i]);
}

impl TimeularConfig {
    /// The entry for `side_num`, where one is known to exist.
    pub fn get_side(&self, side_num: &u8) -> (r: &Side)
        requires
            spec_find_side(self.sides@, *side_num) is Some,
        ensures
            Some(*r) == spec_find_side(self.sides@, *side_num),
    {
        self.find_side(side_num).unwrap()
    }

    /// Whether flipping to `side_num` starts a tracked interval.
    pub fn is_trackable(&self, side_num: &u8) -> (r: bool)
        ensures
            r == spec_is_trackable(*self, *side_num),
    {
        match self.find_side(side_num) {
            Some(s) => s.trackable,
            None => false,
        }
    }

    /// Looks `side_num` up in the table.
    pub fn find_side(&self, side_num: &u8) -> (r: Option<&Side>)
        ensures
            match r {
                Some(s) => Some(*s) == spec_find_side(self.sides@, *side_num),
                None => spec_find_side(self.sides@, *side_num) is None,
            },
    {
        proof {
            assert(self.sides@.skip(0) =~= self.sides@);
        }
        let mut i: usize = 0;
        while i < 8
            invariant
                0 <= i <= 8,
                self.sides@.len() == 8,
                spec_find_side(self.sides@, *side_num) == spec_find_side(
                    self.sides@.skip(i as int),
                    *side_num,
                ),
            decreases 8 - i,
        {
            if self.sides[i].side_num == *side_num {
                proof {
                    assert(self.sides@.skip(i as int)[0] == self.sides@[i as int]);
                }
                return Some(&self.sides[i]);
            }
            proof {
                lemma_find_side_skip(self.sides@, *side_num, i as int);
            }
            i = i + 1;
        }
        proof {
            assert(self.sides@.skip(8) =~= Seq::<Side>::empty());
        }
        None
    }

    /// Replaces the label of the first entry for `side_num`, if one exists;
    /// the rest of the table and the handler name are unchanged.
    pub fn set_side(&mut self, side_num: u8, label: String)
        ensures
            final(self).handler == old(self).handler,
            final(self).sides@.len() == 8,
            match spec_find_side(old(self).sides@, side_num) {
                Some(_) => exists|i: int|
                    #![trigger old(self).sides@[i]]
                    0 <= i < 8
                    && old(self).sides@[i].side_num == side_num
                    && final(self).sides@ =~= old(self).sides@.update(i, (Side {
                        side_num,
                        label: label,
                        trackable: old(self).sides@[i].trackable,
                    })),
                None => final(self).sides@ =~= old(self).sides@,
            },
    {
        proof {
            assert(self.sides@.skip(0) =~= self.sides@);
        }
        let mut i: usize = 0;
        while i < 8
            invariant
                0 <= i <= 8,
                self.sides@.len() == 8,
                *self == *old(self),
                spec_find_side(self.sides@, side_num) == spec_find_side(
                    self.sides@.skip(i as int),
                    side_num,
                ),
            decreases 8 - i,
        {
            if self.sides[i].side_num == side_num {
                let trackable = self.sides[i].trackable;
                self.sides[i] = Side { side_num, label, trackable };
                proof {
                    let gi = i as int;
                    assert(old(self).sides@.skip(gi)[0] == old(self).sides@[gi]);
                    assert(old(self).sides@[gi].side_num == side_num);
                    assert(self.sides@ =~= old(self).sides@.update(gi, (Side {
                        side_num,
                        label: label,
                        trackable: old(self).sides@[gi].trackable,
                    })));
                }
                return ;
            }
            proof {
                lemma_find_side_skip(self.sides@, side_num, i as int);
            }
            i = i + 1;
        }
        proof {
            assert(self.sides@.skip(8) =~= Seq::<Side>::empty());
        }
    }
}

/// Reads the `timeular` entry, creating and writing back the defaults the
/// first time the key is used.
pub fn get_timeular_config(doc: &mut ConfigDocument) -> (r: TimeularConfig)
    ensures
        match old(doc).timeular {
            Some(c) => r == c && *final(doc) == *old(doc),
            None => spec_is_default(r) && *final(doc) == old(doc).with_timeular(r),
        },
{
    match &doc.timeular {
        Some(c) => c.clone(),
        None => {
            let def = TimeularConfig::default();
            update_timeular_config(doc, &def);
            def
        },
    }
}

/// Writes the `timeular` entry; the rest of the document is untouched.
pub fn update_timeular_config(doc: &mut ConfigDocument, config: &TimeularConfig)
    ensures
        *final(doc) == old(doc).with_timeular(*config),
{
    doc.timeular = Some(config.clone());
}

/// Round trip: a document whose `timeular` entry was just written holds
/// exactly the written structure, and reading it back yields it unchanged.
pub proof fn lemma_timeular_round_trip(doc: ConfigDocument, c: TimeularConfig)
    ensures
        doc.with_timeular(c).timeular == Some(c),
        doc.with_timeular(c).with_timeular(c) == doc.with_timeular(c),
{
}

} // verus!
