use vstd::prelude::*;
use crate::greek::{GreekKind, Greeks, kind_at, kind_at_index};

verus! {

/// Name of the composite output field.
pub open spec fn struct_name() -> Seq<char> {
    seq!['a', 'l', 'l', '_', 'g', 'r', 'e', 'e', 'k', 's']
}

/// Ten growable columns, one per sensitivity, filled one record at a time.
pub struct GreeksVec {
    pub delta: Vec<u64>,
    pub gamma: Vec<u64>,
    pub theta: Vec<u64>,
    pub vega: Vec<u64>,
    pub rho: Vec<u64>,
    pub vanna: Vec<u64>,
    pub volga: Vec<u64>,
    pub charm: Vec<u64>,
    pub speed: Vec<u64>,
    pub zomma: Vec<u64>,
}

impl GreeksVec {
    /// The column of `k`.
    pub open spec fn col(self, k: GreekKind) -> Seq<u64> {
        match k {
            GreekKind::Delta => self.delta@,
            GreekKind::Gamma => self.gamma@,
            GreekKind::Theta => self.theta@,
            GreekKind::Vega => self.vega@,
            GreekKind::Rho => self.rho@,
            GreekKind::Vanna => self.vanna@,
            GreekKind::Volga => self.volga@,
            GreekKind::Charm => self.charm@,
            GreekKind::Speed => self.speed@,
            GreekKind::Zomma => self.zomma@,
        }
    }

    /// Record `i`, read across the ten columns.
    pub open spec fn record(self, i: int) -> Greeks {
        Greeks {
            delta: self.delta@[i],
            gamma: self.gamma@[i],
            theta: self.theta@[i],
            vega: self.vega@[i],
            rho: self.rho@[i],
            vanna: self.vanna@[i],
            volga: self.volga@[i],
            charm: self.charm@[i],
            speed: self.speed@[i],
            zomma: self.zomma@[i],
        }
    }

    /// Number of records pushed so far.
    pub open spec fn rows(self) -> nat {
        self.delta@.len()
    }

    /// All ten columns have the same length.
    pub open spec fn wf(self) -> bool {
        &&& self.gamma@.len() == self.rows()
        &&& self.theta@.len() == self.rows()
        &&& self.vega@.len() == self.rows()
        &&& self.rho@.len() == self.rows()
        &&& self.vanna@.len() == self.rows()
        &&& self.volga@.len() == self.rows()
        &&& self.charm@.len() == self.rows()
        &&& self.speed@.len() == self.rows()
        &&& self.zomma@.len() == self.rows()
    }

    /// Empty columns with room for `len` records each.
    pub fn with_capacity(len: usize) -> (r: GreeksVec)
        ensures
            r.wf(),
            r.rows() == 0,
    {
        GreeksVec {
            delta: Vec::with_capacity(len),
            gamma: Vec::with_capacity(len),
            theta: Vec::with_capacity(len),
            vega: Vec::with_capacity(len),
            rho: Vec::with_capacity(len),
            vanna: Vec::with_capacity(len),
            volga: Vec::with_capacity(len),
            charm: Vec::with_capacity(len),
            speed: Vec::with_capacity(len),
            zomma: Vec::with_capacity(len),
        }
    }

    /// Appends each field of `greeks` to its column.
    pub fn push(&mut self, greeks: Greeks)
        requires
            old(self).wf(),
        ensures
            final(self).wf(),
            final(self).rows() == old(self).rows() + 1,
            forall|k: GreekKind| #[trigger] final(self).col(k) == old(self).col(k).push(greeks.get(k)),
            final(self).record(old(self).rows() as int) == greeks,
            forall|j: int|
                0 <= j < old(self).rows() ==> #[trigger] final(self).record(j) == old(self).record(j),
    {
        self.delta.push(greeks.delta);
        self.gamma.push(greeks.gamma);
        self.theta.push(greeks.theta);
        self.vega.push(greeks.vega);
        self.rho.push(greeks.rho);
        self.vanna.push(greeks.vanna);
        self.volga.push(greeks.volga);
        self.charm.push(greeks.charm);
        self.speed.push(greeks.speed);
        self.zomma.push(greeks.zomma);
    }

    /// Assembles the columns into the composite output, fields in the fixed order.
    pub fn to_struct_series(self) -> (r: GreeksStruct)
        requires
            self.wf(),
        ensures
            r.wf(),
            r.len == self.rows(),
            forall|k: GreekKind| #[trigger] r.col(k) == self.col(k),
    {
        let len = self.delta.len();
        let ghost old_self = self;
        let GreeksVec { delta, gamma, theta, vega, rho, vanna, volga, charm, speed, zomma } = self;
        let mut fields: Vec<NamedColumn> = Vec::with_capacity(10);
        fields.push(NamedColumn { name: GreekKind::Delta.name(), values: delta });
        fields.push(NamedColumn { name: GreekKind::Gamma.name(), values: gamma });
        fields.push(NamedColumn { name: GreekKind::Theta.name(), values: theta });
        fields.push(NamedColumn { name: GreekKind::Vega.name(), values: vega });
        fields.push(NamedColumn { name: GreekKind::Rho.name(), values: rho });
        fields.push(NamedColumn { name: GreekKind::Vanna.name(), values: vanna });
        fields.push(NamedColumn { name: GreekKind::Volga.name(), values: volga });
        fields.push(NamedColumn { name: GreekKind::Charm.name(), values: charm });
        fields.push(NamedColumn { name: GreekKind::Speed.name(), values: speed });
        fields.push(NamedColumn { name: GreekKind::Zomma.name(), values: zomma });
        let r = GreeksStruct { name: "all_greeks", len, fields };
        proof {
            reveal_strlit("all_greeks");
            assert(r.name@ =~= struct_name());
            assert(r.fields@.len() == 10);
            assert forall|j: int| 0 <= j < 10 implies (#[trigger] r.fields@[j]).name@ == kind_at(j).spec_name()
                && r.fields@[j].values@.len() == r.len by {
                if j == 0 {} else if j == 1 {} else if j == 2 {} else if j == 3 {} else if j == 4 {
                } else if j == 5 {} else if j == 6 {} else if j == 7 {} else if j == 8 {} else {}
            }
        }
        r
    }
}

/// One named column of the composite output.
pub struct NamedColumn {
    pub name: &'static str,
    pub values: Vec<u64>,
}

/// The composite output: ten named columns of one common length, in the
/// fixed order of `GreekKind`.
pub struct GreeksStruct {
    pub name: &'static str,
    pub len: usize,
    pub fields: Vec<NamedColumn>,
}

impl GreeksStruct {
    /// The column of `k`.
    pub open spec fn col(self, k: GreekKind) -> Seq<u64> {
        self.fields@[k.index() as int].values@
    }

    /// The fixed schema holds and every column has `len` entries.
    pub open spec fn wf(self) -> bool {
        &&& self.name@ == struct_name()
        &&& self.fields@.len() == 10
        &&& forall|j: int|
            0 <= j < 10 ==> (#[trigger] self.fields@[j]).name@ == kind_at(j).spec_name()
                && self.fields@[j].values@.len() == self.len
    }

    /// Row `i` of the output as a record.
    pub open spec fn record(self, i: int) -> Greeks {
        Greeks {
            delta: self.col(GreekKind::Delta)[i],
            gamma: self.col(GreekKind::Gamma)[i],
            theta: self.col(GreekKind::Theta)[i],
            vega: self.col(GreekKind::Vega)[i],
            rho: self.col(GreekKind::Rho)[i],
            vanna: self.col(GreekKind::Vanna)[i],
            volga: self.col(GreekKind::Volga)[i],
            charm: self.col(GreekKind::Charm)[i],
            speed: self.col(GreekKind::Speed)[i],
            zomma: self.col(GreekKind::Zomma)[i],
        }
    }

    /// The values of `k`, one per row.
    pub fn column(&self, k: GreekKind) -> (r: &Vec<u64>)
        requires
            self.wf(),
        ensures
            r@ == self.col(k),
    {
        let j: usize = match k {
            GreekKind::Delta => 0,
            GreekKind::Gamma => 1,
            GreekKind::Theta => 2,
            GreekKind::Vega => 3,
            GreekKind::Rho => 4,
            GreekKind::Vanna => 5,
            GreekKind::Volga => 6,
            GreekKind::Charm => 7,
            GreekKind::Speed => 8,
            GreekKind::Zomma => 9,
        };
        &self.fields[j].values
    }
}

/// The declared output field: its name and the names of its ten sub-fields,
/// each a binary64 column.
pub struct GreeksSchema {
    pub name: &'static str,
    pub fields: Vec<&'static str>,
}

/// The output schema, the same for every input: `all_greeks` with one field
/// per sensitivity in the fixed order.
pub fn infer_greeks_struct_schema() -> (r: GreeksSchema)
    ensures
        r.name@ == struct_name(),
        r.fields@.len() == 10,
        forall|j: int| 0 <= j < 10 ==> (#[trigger] r.fields@[j])@ == kind_at(j).spec_name(),
{
    let mut fields: Vec<&'static str> = Vec::with_capacity(10);
    let mut j: usize = 0;
    while j < 10
        invariant
            j <= 10,
            fields@.len() == j,
            forall|m: int| 0 <= m < j ==> (#[trigger] fields@[m])@ == kind_at(m).spec_name(),
        decreases 10 - j,
    {
        fields.push(kind_at_index(j).name());
        j = j + 1;
    }
    proof {
        reveal_strlit("all_greeks");
        assert("all_greeks"@ =~= struct_name());
    }
    GreeksSchema { name: "all_greeks", fields }
}

} // verus!
