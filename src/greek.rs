use vstd::prelude::*;

verus! {

/// The closed, ordered set of sensitivities. The order fixes the field order
/// of every output and must not change.
#[derive(Clone, Copy, Debug, PartialEq, Eq, Structural)]
pub enum GreekKind {
    Delta,
    Gamma,
    Theta,
    Vega,
    Rho,
    Vanna,
    Volga,
    Charm,
    Speed,
    Zomma,
}

impl GreekKind {
    /// Position of the kind in the fixed order.
    pub open spec fn index(self) -> nat {
        match self {
            GreekKind::Delta => 0,
            GreekKind::Gamma => 1,
            GreekKind::Theta => 2,
            GreekKind::Vega => 3,
            GreekKind::Rho => 4,
            GreekKind::Vanna => 5,
            GreekKind::Volga => 6,
            GreekKind::Charm => 7,
            GreekKind::Speed => 8,
            GreekKind::Zomma => 9,
        }
    }

    /// Field name of the kind in the output schema.
    pub open spec fn spec_name(self) -> Seq<char> {
        match self {
            GreekKind::Delta => seq!['d', 'e', 'l', 't', 'a'],
            GreekKind::Gamma => seq!['g', 'a', 'm', 'm', 'a'],
            GreekKind::Theta => seq!['t', 'h', 'e', 't', 'a'],
            GreekKind::Vega => seq!['v', 'e', 'g', 'a'],
            GreekKind::Rho => seq!['r', 'h', 'o'],
            GreekKind::Vanna => seq!['v', 'a', 'n', 'n', 'a'],
            GreekKind::Volga => seq!['v', 'o', 'l', 'g', 'a'],
            GreekKind::Charm => seq!['c', 'h', 'a', 'r', 'm'],
            GreekKind::Speed => seq!['s', 'p', 'e', 'e', 'd'],
            GreekKind::Zomma => seq!['z', 'o', 'm', 'm', 'a'],
        }
    }

    /// The name of the kind, as it appears in requests and in the schema.
    pub fn name(self) -> (r: &'static str)
        ensures
            r@ == self.spec_name(),
    {
        match self {
            GreekKind::Delta => {
                proof { reveal_strlit("delta"); }
                "delta"
            },
            GreekKind::Gamma => {
                proof { reveal_strlit("gamma"); }
                "gamma"
            },
            GreekKind::Theta => {
                proof { reveal_strlit("theta"); }
                "theta"
            },
            GreekKind::Vega => {
                proof { reveal_strlit("vega"); }
                "vega"
            },
            GreekKind::Rho => {
                proof { reveal_strlit("rho"); }
                "rho"
            },
            GreekKind::Vanna => {
                proof { reveal_strlit("vanna"); }
                "vanna"
            },
            GreekKind::Volga => {
                proof { reveal_strlit("volga"); }
                "volga"
            },
            GreekKind::Charm => {
                proof { reveal_strlit("charm"); }
                "charm"
            },
            GreekKind::Speed => {
                proof { reveal_strlit("speed"); }
                "speed"
            },
            GreekKind::Zomma => {
                proof { reveal_strlit("zomma"); }
                "zomma"
            },
        }
    }
}

/// The kind at position `i` of the fixed order.
pub open spec fn kind_at(i: int) -> GreekKind
    recommends
        0 <= i < 10,
{
    if i == 0 {
        GreekKind::Delta
    } else if i == 1 {
        GreekKind::Gamma
    } else if i == 2 {
        GreekKind::Theta
    } else if i == 3 {
        GreekKind::Vega
    } else if i == 4 {
        GreekKind::Rho
    } else if i == 5 {
        GreekKind::Vanna
    } else if i == 6 {
        GreekKind::Volga
    } else if i == 7 {
        GreekKind::Charm
    } else if i == 8 {
        GreekKind::Speed
    } else {
        GreekKind::Zomma
    }
}

/// The kind at position `i` of the fixed order.
pub fn kind_at_index(i: usize) -> (r: GreekKind)
    requires
        i < 10,
    ensures
        r == kind_at(i as int),
        r.index() == i,
{
    if i == 0 {
        GreekKind::Delta
    } else if i == 1 {
        GreekKind::Gamma
    } else if i == 2 {
        GreekKind::Theta
    } else if i == 3 {
        GreekKind::Vega
    } else if i == 4 {
        GreekKind::Rho
    } else if i == 5 {
        GreekKind::Vanna
    } else if i == 6 {
        GreekKind::Volga
    } else if i == 7 {
        GreekKind::Charm
    } else if i == 8 {
        GreekKind::Speed
    } else {
        GreekKind::Zomma
    }
}

/// One value per sensitivity, each the bit pattern of a binary64 number.
/// The all-zero record holds `0.0` (bit pattern `0`) in every field.
#[derive(Clone, Copy, Debug, PartialEq, Eq, Structural)]
pub struct Greeks {
    pub delta: u64,
    pub gamma: u64,
    pub theta: u64,
    pub vega: u64,
    pub rho: u64,
    pub vanna: u64,
    pub volga: u64,
    pub charm: u64,
    pub speed: u64,
    pub zomma: u64,
}

impl Greeks {
    /// The field of the record that belongs to `k`.
    pub open spec fn get(self, k: GreekKind) -> u64 {
        match k {
            GreekKind::Delta => self.delta,
            GreekKind::Gamma => self.gamma,
            GreekKind::Theta => self.theta,
            GreekKind::Vega => self.vega,
            GreekKind::Rho => self.rho,
            GreekKind::Vanna => self.vanna,
            GreekKind::Volga => self.volga,
            GreekKind::Charm => self.charm,
            GreekKind::Speed => self.speed,
            GreekKind::Zomma => self.zomma,
        }
    }

    /// Every field holds `0.0`.
    pub open spec fn is_zero(self) -> bool {
        forall|k: GreekKind| #[trigger] self.get(k) == 0
    }

    /// The all-zero record.
    pub fn zero() -> (r: Greeks)
        ensures
            r.is_zero(),
    {
        Greeks {
            delta: 0,
            gamma: 0,
            theta: 0,
            vega: 0,
            rho: 0,
            vanna: 0,
            volga: 0,
            charm: 0,
            speed: 0,
            zomma: 0,
        }
    }

    /// The field of the record that belongs to `k`.
    pub fn value(&self, k: GreekKind) -> (r: u64)
        ensures
            r == self.get(k),
    {
        match k {
            GreekKind::Delta => self.delta,
            GreekKind::Gamma => self.gamma,
            GreekKind::Theta => self.theta,
            GreekKind::Vega => self.vega,
            GreekKind::Rho => self.rho,
            GreekKind::Vanna => self.vanna,
            GreekKind::Volga => self.volga,
            GreekKind::Charm => self.charm,
            GreekKind::Speed => self.speed,
            GreekKind::Zomma => self.zomma,
        }
    }
}

} // verus!
