use vstd::prelude::*;
use vstd::string::StrSliceExecFns;
use crate::greek::GreekKind;

verus! {

/// The caller's configuration: the names of the requested sensitivities.
/// An absent request is an empty list. Names that match no sensitivity are
/// ignored.
pub struct GreeksKwargs {
    pub greeks: Vec<String>,
}

/// `names` holds the name of `k`.
pub open spec fn names_request(names: Seq<String>, k: GreekKind) -> bool {
    exists|i: int| 0 <= i < names.len() && (#[trigger] names[i])@ == k.spec_name()
}

/// The sensitivities selected by `names`: those it names, or vega and charm
/// where it names none at all.
pub open spec fn selected_by(names: Seq<String>, k: GreekKind) -> bool {
    if names.len() == 0 {
        k == GreekKind::Vega || k == GreekKind::Charm
    } else {
        names_request(names, k)
    }
}

/// The set of sensitivities to compute, resolved once per invocation.
#[derive(Clone, Copy, Debug, PartialEq, Eq, Structural)]
pub struct GreeksFlags {
    pub delta: bool,
    pub gamma: bool,
    pub theta: bool,
    pub vega: bool,
    pub rho: bool,
    pub vanna: bool,
    pub volga: bool,
    pub charm: bool,
    pub speed: bool,
    pub zomma: bool,
}

/// Character-wise equality of two strings.
fn same_text(a: &str, b: &str) -> (r: bool)
    ensures
        r == (a@ == b@),
{
    let n = a.unicode_len();
    if n != b.unicode_len() {
        return false;
    }
    let mut i: usize = 0;
    while i < n
        invariant
            n == a@.len(),
            n == b@.len(),
            i <= n,
            forall|j: int| 0 <= j < i ==> a@[j] == b@[j],
        decreases n - i,
    {
        if a.get_char(i) != b.get_char(i) {
            return false;
        }
        i = i + 1;
    }
    assert(a@ =~= b@);
    true
}

/// Whether `names` holds the name of `k`.
fn contains_name(names: &Vec<String>, k: GreekKind) -> (r: bool)
    ensures
        r == names_request(names@, k),
{
    let target = k.name();
    let mut i: usize = 0;
    while i < names.len()
        invariant
            i <= names@.len(),
            target@ == k.spec_name(),
            forall|j: int| 0 <= j < i ==> (#[trigger] names@[j])@ != k.spec_name(),
        decreases names@.len() - i,
    {
        if same_text(names[i].as_str(), target) {
            return true;
        }
        i = i + 1;
    }
    false
}

impl GreeksFlags {
    /// The selection that `names` requests.
    pub open spec fn spec_from(names: Seq<String>) -> GreeksFlags {
        GreeksFlags {
            delta: selected_by(names, GreekKind::Delta),
            gamma: selected_by(names, GreekKind::Gamma),
            theta: selected_by(names, GreekKind::Theta),
            vega: selected_by(names, GreekKind::Vega),
            rho: selected_by(names, GreekKind::Rho),
            vanna: selected_by(names, GreekKind::Vanna),
            volga: selected_by(names, GreekKind::Volga),
            charm: selected_by(names, GreekKind::Charm),
            speed: selected_by(names, GreekKind::Speed),
            zomma: selected_by(names, GreekKind::Zomma),
        }
    }

    /// Whether `k` is selected.
    pub open spec fn has(self, k: GreekKind) -> bool {
        match k {
            GreekKind::Delta => self.delta,
            GreekKind::Gamma => self.gamma,
            GreekKind::Theta => self.theta,
            GreekKind::Vega => self.vega,
            GreekKind::Rho => self.rho,
            GreekKind::Vanna => self.vanna,
            GreekKind::Volga => self.volga,
            GreekKind::Charm => self.charm,
            GreekKind::Speed => self.speed,
            GreekKind::Zomma => self.zomma,
        }
    }

    /// Whether `k` is selected.
    pub fn contains(&self, k: GreekKind) -> (r: bool)
        ensures
            r == self.has(k),
    {
        match k {
            GreekKind::Delta => self.delta,
            GreekKind::Gamma => self.gamma,
            GreekKind::Theta => self.theta,
            GreekKind::Vega => self.vega,
            GreekKind::Rho => self.rho,
            GreekKind::Vanna => self.vanna,
            GreekKind::Volga => self.volga,
            GreekKind::Charm => self.charm,
            GreekKind::Speed => self.speed,
            GreekKind::Zomma => self.zomma,
        }
    }

    /// Resolves the request: the named sensitivities, or vega and charm
    /// where no name is given. Unknown names select nothing.
    pub fn from_kwargs(kwargs: &GreeksKwargs) -> (r: GreeksFlags)
        ensures
            r == GreeksFlags::spec_from(kwargs.greeks@),
            forall|k: GreekKind| #[trigger] r.has(k) == selected_by(kwargs.greeks@, k),
    {
        let names = &kwargs.greeks;
        if names.len() == 0 {
            return GreeksFlags {
                delta: false,
                gamma: false,
                theta: false,
                vega: true,
                rho: false,
                vanna: false,
                volga: false,
                charm: true,
                speed: false,
                zomma: false,
            };
        }
        GreeksFlags {
            delta: contains_name(names, GreekKind::Delta),
            gamma: contains_name(names, GreekKind::Gamma),
            theta: contains_name(names, GreekKind::Theta),
            vega: contains_name(names, GreekKind::Vega),
            rho: contains_name(names, GreekKind::Rho),
            vanna: contains_name(names, GreekKind::Vanna),
            volga: contains_name(names, GreekKind::Volga),
            charm: contains_name(names, GreekKind::Charm),
            speed: contains_name(names, GreekKind::Speed),
            zomma: contains_name(names, GreekKind::Zomma),
        }
    }
}

} // verus!
