//! The fixed cyclic sequence of planet variants and, for story mode, the
//! scripted obstacle layout of each variant (angles in milli-degrees).

use vstd::prelude::*;

verus! {

/// One of the fixed cyclic sequence of planet skins and obstacle layouts.
#[derive(Clone, Copy, PartialEq, Eq, Structural, Debug)]
pub enum PlanetVariant {
    Earth,
    Venus,
    Mars,
    Mercury,
    Jupiter,
    Neptune,
    Uran,
}

impl PlanetVariant {
    /// The successor in the fixed cyclic order.
    pub open spec fn next_spec(self) -> PlanetVariant {
        match self {
            PlanetVariant::Earth => PlanetVariant::Venus,
            PlanetVariant::Venus => PlanetVariant::Mars,
            PlanetVariant::Mars => PlanetVariant::Mercury,
            PlanetVariant::Mercury => PlanetVariant::Jupiter,
            PlanetVariant::Jupiter => PlanetVariant::Neptune,
            PlanetVariant::Neptune => PlanetVariant::Uran,
            PlanetVariant::Uran => PlanetVariant::Earth,
        }
    }

    /// Advances to the next variant in the cyclic order.
    pub fn next(self) -> (n: PlanetVariant)
        ensures
            n == self.next_spec(),
    {
        match self {
            PlanetVariant::Earth => PlanetVariant::Venus,
            PlanetVariant::Venus => PlanetVariant::Mars,
            PlanetVariant::Mars => PlanetVariant::Mercury,
            PlanetVariant::Mercury => PlanetVariant::Jupiter,
            PlanetVariant::Jupiter => PlanetVariant::Neptune,
            PlanetVariant::Neptune => PlanetVariant::Uran,
            PlanetVariant::Uran => PlanetVariant::Earth,
        }
    }

    /// The scripted obstacle angles of this variant, in milli-degrees.
    pub open spec fn obstacle_angles_spec(self) -> Seq<i64> {
        match self {
            PlanetVariant::Earth => seq![0i64],
            PlanetVariant::Venus => seq![0i64, 180_000],
            PlanetVariant::Mars => seq![290_000i64, 270_000, 250_000],
            PlanetVariant::Mercury => seq![180_000i64, 30_000, 0, 330_000],
            PlanetVariant::Jupiter => seq![30_000i64, 150_000, 270_000],
            PlanetVariant::Neptune => seq![45_000i64, 30_000, 15_000, 240_000, 225_000, 210_000],
            PlanetVariant::Uran => seq![180_000i64, 225_000, 315_000, 0],
        }
    }

    /// The scripted obstacle angles used by story mode.
    pub fn get_obstacles(self) -> (angles: Vec<i64>)
        ensures
            angles@ == self.obstacle_angles_spec(),
    {
        let mut angles: Vec<i64> = Vec::new();
        match self {
            PlanetVariant::Earth => {
                angles.push(0);
            }
            PlanetVariant::Venus => {
                angles.push(0);
                angles.push(180_000);
            }
            PlanetVariant::Mars => {
                angles.push(290_000);
                angles.push(270_000);
                angles.push(250_000);
            }
            PlanetVariant::Mercury => {
                angles.push(180_000);
                angles.push(30_000);
                angles.push(0);
                angles.push(330_000);
            }
            PlanetVariant::Jupiter => {
                angles.push(30_000);
                angles.push(150_000);
                angles.push(270_000);
            }
            PlanetVariant::Neptune => {
                angles.push(45_000);
                angles.push(30_000);
                angles.push(15_000);
                angles.push(240_000);
                angles.push(225_000);
                angles.push(210_000);
            }
            PlanetVariant::Uran => {
                angles.push(180_000);
                angles.push(225_000);
                angles.push(315_000);
                angles.push(0);
            }
        }
        proof {
            assert(angles@ =~= self.obstacle_angles_spec());
        }
        angles
    }
}

/// Every variant's scripted layout has between one and seven obstacles, all
/// with angles inside one full turn.
pub proof fn lemma_obstacle_angles_well_formed(v: PlanetVariant)
    ensures
        1 <= v.obstacle_angles_spec().len() <= 7,
        forall|i: int|
            0 <= i < v.obstacle_angles_spec().len() ==> 0 <= #[trigger] v.obstacle_angles_spec()[i]
                < crate::FULL_TURN,
{
}

/// Following the successor once around the cycle returns to the start.
pub proof fn lemma_variant_cycle(v: PlanetVariant)
    ensures
        v.next_spec()
            .next_spec()
            .next_spec()
            .next_spec()
            .next_spec()
            .next_spec()
            .next_spec() == v,
{
}

} // verus!
