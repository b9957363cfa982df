//! The options of the pixel sort and the updates that change them.
//!
//! The options are a mode selector, one threshold for each mode and a
//! direction. An update replaces exactly one of these five fields, so
//! updates that arrive in order fold into a snapshot in which, for every
//! field, the last update that wrote it has won.

use vstd::prelude::*;
use crate::sorter::{default_black, default_brightness, default_white};
use crate::sorter::{DEFAULT_BLACK_RAW, DEFAULT_BRIGHTNESS_LEVEL, DEFAULT_WHITE_RAW};

verus! {

/// Which pixels bound the runs that are sorted.
#[derive(Clone, Copy, Debug, PartialEq, Eq, Structural)]
pub enum Mode {
    Black,
    Brightness,
    White,
}

/// Along which lines pixels are sorted.
#[derive(Clone, Copy, Debug, PartialEq, Eq, Structural)]
pub enum Direction {
    Both,
    Column,
    Row,
}

/// The threshold of one mode: a packed colour for the black and the white
/// mode, a level from 0 to 255 for the brightness mode.
#[derive(Clone, Copy, Debug, PartialEq, Eq, Structural)]
pub enum Threshold {
    Black(i32),
    Brightness(u8),
    White(i32),
}

/// One changed aspect of the options.
#[derive(Clone, Copy, Debug, PartialEq, Eq, Structural)]
pub enum ConfigUpdate {
    Threshold(Threshold),
    Mode(Mode),
    Direction(Direction),
}

/// The fields of the options, each written by one kind of update.
#[derive(Clone, Copy, Debug, PartialEq, Eq, Structural)]
pub enum Field {
    Mode,
    BlackThreshold,
    BrightnessThreshold,
    WhiteThreshold,
    Direction,
}

/// A complete snapshot of the options.
#[derive(Clone, Copy, Debug, PartialEq, Eq, Structural)]
pub struct TransformOptions {
    pub mode: Mode,
    pub black: i32,
    pub brightness: u8,
    pub white: i32,
    pub direction: Direction,
}

impl Threshold {
    /// The mode that this threshold belongs to.
    pub open spec fn mode(self) -> Mode {
        match self {
            Threshold::Black(_) => Mode::Black,
            Threshold::Brightness(_) => Mode::Brightness,
            Threshold::White(_) => Mode::White,
        }
    }
}

impl ConfigUpdate {
    /// The field that this update writes.
    pub open spec fn field(self) -> Field {
        match self {
            ConfigUpdate::Mode(_) => Field::Mode,
            ConfigUpdate::Threshold(Threshold::Black(_)) => Field::BlackThreshold,
            ConfigUpdate::Threshold(Threshold::Brightness(_)) => Field::BrightnessThreshold,
            ConfigUpdate::Threshold(Threshold::White(_)) => Field::WhiteThreshold,
            ConfigUpdate::Direction(_) => Field::Direction,
        }
    }
}

impl TransformOptions {
    /// The options before any update: brightness mode, both directions, and
    /// the sorter's own default thresholds.
    pub open spec fn initial() -> TransformOptions {
        TransformOptions {
            mode: Mode::Brightness,
            black: DEFAULT_BLACK_RAW,
            brightness: DEFAULT_BRIGHTNESS_LEVEL,
            white: DEFAULT_WHITE_RAW,
            direction: Direction::Both,
        }
    }

    /// The options after one update: the field that the update writes holds
    /// the update's value, the other four are as before.
    pub open spec fn apply(self, update: ConfigUpdate) -> TransformOptions {
        match update {
            ConfigUpdate::Mode(mode) => TransformOptions { mode, ..self },
            ConfigUpdate::Threshold(Threshold::Black(black)) => TransformOptions { black, ..self },
            ConfigUpdate::Threshold(Threshold::Brightness(brightness)) => TransformOptions {
                brightness,
                ..self
            },
            ConfigUpdate::Threshold(Threshold::White(white)) => TransformOptions { white, ..self },
            ConfigUpdate::Direction(direction) => TransformOptions { direction, ..self },
        }
    }

    /// The options after a sequence of updates, applied in arrival order.
    pub open spec fn fold(self, updates: Seq<ConfigUpdate>) -> TransformOptions
        decreases updates.len(),
    {
        if updates.len() == 0 {
            self
        } else {
            self.fold(updates.drop_last()).apply(updates.last())
        }
    }

    /// The field that `update` writes holds the value that `update` carries.
    pub open spec fn holds(self, update: ConfigUpdate) -> bool {
        self.apply(update) == self
    }

    /// Two snapshots have the same value in `field`.
    pub open spec fn agrees_on(self, other: TransformOptions, field: Field) -> bool {
        match field {
            Field::Mode => self.mode == other.mode,
            Field::BlackThreshold => self.black == other.black,
            Field::BrightnessThreshold => self.brightness == other.brightness,
            Field::WhiteThreshold => self.white == other.white,
            Field::Direction => self.direction == other.direction,
        }
    }

    /// The threshold that the selected mode sorts by.
    pub open spec fn active_threshold(self) -> Threshold {
        match self.mode {
            Mode::Black => Threshold::Black(self.black),
            Mode::Brightness => Threshold::Brightness(self.brightness),
            Mode::White => Threshold::White(self.white),
        }
    }

    /// Folding `earlier` and then `later` is folding their concatenation.
    pub proof fn lemma_fold_concat(self, earlier: Seq<ConfigUpdate>, later: Seq<ConfigUpdate>)
        ensures
            self.fold(earlier + later) == self.fold(earlier).fold(later),
        decreases later.len(),
    {
        if later.len() == 0 {
            assert(earlier + later =~= earlier);
        } else {
            self.lemma_fold_concat(earlier, later.drop_last());
            assert((earlier + later).drop_last() =~= earlier + later.drop_last());
            assert((earlier + later).last() == later.last());
        }
    }

    /// A field that no update of the sequence writes keeps its value.
    pub proof fn lemma_unwritten_field_kept(self, updates: Seq<ConfigUpdate>, field: Field)
        requires
            forall|j: int| 0 <= j < updates.len() ==> (#[trigger] updates[j]).field() != field,
        ensures
            self.fold(updates).agrees_on(self, field),
        decreases updates.len(),
    {
        if updates.len() > 0 {
            let earlier = updates.drop_last();
            assert forall|j: int| 0 <= j < earlier.len() implies (#[trigger] earlier[j]).field()
                != field by {
                assert(earlier[j] == updates[j]);
            }
            self.lemma_unwritten_field_kept(earlier, field);
            assert(updates.last() == updates[updates.len() - 1]);
        }
    }

    /// Last write wins: after a sequence of updates, every field holds the
    /// value of the last update in arrival order that wrote it.
    pub proof fn lemma_last_write_wins(self, updates: Seq<ConfigUpdate>, i: int)
        requires
            0 <= i < updates.len(),
            forall|j: int| i < j < updates.len() ==> (#[trigger] updates[j]).field() != updates[i].field(),
        ensures
            self.fold(updates).holds(updates[i]),
        decreases updates.len(),
    {
        let earlier = updates.drop_last();
        if i == updates.len() - 1 {
            assert(updates.last() == updates[i]);
        } else {
            assert(earlier[i] == updates[i]);
            assert forall|j: int| i < j < earlier.len() implies (#[trigger] earlier[j]).field()
                != earlier[i].field() by {
                assert(earlier[j] == updates[j]);
            }
            self.lemma_last_write_wins(earlier, i);
            assert(updates.last() == updates[updates.len() - 1]);
            assert(updates.last().field() != updates[i].field());
        }
    }

    /// Applies one update.
    pub fn apply_update(&mut self, update: ConfigUpdate)
        ensures
            *final(self) == old(self).apply(update),
    {
        match update {
            ConfigUpdate::Mode(mode) => {
                self.mode = mode;
            },
            ConfigUpdate::Threshold(Threshold::Black(black)) => {
                self.black = black;
            },
            ConfigUpdate::Threshold(Threshold::Brightness(brightness)) => {
                self.brightness = brightness;
            },
            ConfigUpdate::Threshold(Threshold::White(white)) => {
                self.white = white;
            },
            ConfigUpdate::Direction(direction) => {
                self.direction = direction;
            },
        }
    }

    /// Applies a batch of updates in arrival order.
    pub fn apply_updates(&mut self, updates: &Vec<ConfigUpdate>)
        ensures
            *final(self) == old(self).fold(updates@),
    {
        let mut i: usize = 0;
        while i < updates.len()
            invariant
                i <= updates.len(),
                *self == old(self).fold(updates@.take(i as int)),
            decreases updates.len() - i,
        {
            assert(updates@.take(i + 1).drop_last() =~= updates@.take(i as int));
            self.apply_update(updates[i]);
            i += 1;
        }
        assert(updates@.take(i as int) =~= updates@);
    }

    /// The threshold that the selected mode sorts by.
    pub fn threshold(&self) -> (threshold: Threshold)
        ensures
            threshold == self.active_threshold(),
    {
        match self.mode {
            Mode::Black => Threshold::Black(self.black),
            Mode::Brightness => Threshold::Brightness(self.brightness),
            Mode::White => Threshold::White(self.white),
        }
    }
}

impl Default for TransformOptions {
    fn default() -> (options: Self)
        ensures
            options == TransformOptions::initial(),
    {
        TransformOptions {
            mode: Mode::Brightness,
            black: default_black(),
            brightness: default_brightness(),
            white: default_white(),
            direction: Direction::Both,
        }
    }
}

} // verus!
