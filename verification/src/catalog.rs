//! The kernel catalog: the fixed set of named device functions, and their
//! all-or-nothing resolution into handles.

use vstd::prelude::*;

verus! {

/// How many kernels the catalog holds.
pub const KERNEL_COUNT: usize = 8;

/// One named device function.
#[derive(Clone, Copy, Debug, PartialEq, Eq, Structural)]
pub enum Kernel {
    BackpropRelu,
    BackpropCrelu,
    BackpropScrelu,
    ActivateRelu,
    ActivateCrelu,
    ActivateScrelu,
    AddTo,
    SigmoidMpe,
}

impl Kernel {
    /// The position of this kernel in catalog order.
    pub open spec fn ordinal_spec(self) -> nat {
        match self {
            Kernel::BackpropRelu => 0,
            Kernel::BackpropCrelu => 1,
            Kernel::BackpropScrelu => 2,
            Kernel::ActivateRelu => 3,
            Kernel::ActivateCrelu => 4,
            Kernel::ActivateScrelu => 5,
            Kernel::AddTo => 6,
            Kernel::SigmoidMpe => 7,
        }
    }

    /// The kernel at a position of catalog order.
    pub open spec fn at_spec(ordinal: nat) -> Option<Kernel> {
        if ordinal == 0 {
            Some(Kernel::BackpropRelu)
        } else if ordinal == 1 {
            Some(Kernel::BackpropCrelu)
        } else if ordinal == 2 {
            Some(Kernel::BackpropScrelu)
        } else if ordinal == 3 {
            Some(Kernel::ActivateRelu)
        } else if ordinal == 4 {
            Some(Kernel::ActivateCrelu)
        } else if ordinal == 5 {
            Some(Kernel::ActivateScrelu)
        } else if ordinal == 6 {
            Some(Kernel::AddTo)
        } else if ordinal == 7 {
            Some(Kernel::SigmoidMpe)
        } else {
            None
        }
    }

    /// The name under which the device library holds this kernel.
    pub open spec fn name_spec(self) -> Seq<char> {
        match self {
            Kernel::BackpropRelu => "backpropReLU"@,
            Kernel::BackpropCrelu => "backpropCReLU"@,
            Kernel::BackpropScrelu => "backpropSCReLU"@,
            Kernel::ActivateRelu => "activateReLU"@,
            Kernel::ActivateCrelu => "activateCReLU"@,
            Kernel::ActivateScrelu => "activateSCReLU"@,
            Kernel::AddTo => "addTo"@,
            Kernel::SigmoidMpe => "sigmoidMPE"@,
        }
    }

    /// Whether this kernel follows the two-buffer elementwise protocol.
    pub open spec fn is_two_buffer_spec(self) -> bool {
        self != Kernel::SigmoidMpe
    }

    /// The position of this kernel in catalog order.
    pub fn ordinal(self) -> (r: usize)
        ensures
            r == self.ordinal_spec(),
            r < KERNEL_COUNT,
    {
        match self {
            Kernel::BackpropRelu => 0,
            Kernel::BackpropCrelu => 1,
            Kernel::BackpropScrelu => 2,
            Kernel::ActivateRelu => 3,
            Kernel::ActivateCrelu => 4,
            Kernel::ActivateScrelu => 5,
            Kernel::AddTo => 6,
            Kernel::SigmoidMpe => 7,
        }
    }

    /// The kernel at a position of catalog order; none past the catalog.
    pub fn at(ordinal: usize) -> (r: Option<Kernel>)
        ensures
            r == Kernel::at_spec(ordinal as nat),
            r is Some <==> ordinal < KERNEL_COUNT,
            r matches Some(kernel) ==> kernel.ordinal_spec() == ordinal,
    {
        if ordinal == 0 {
            Some(Kernel::BackpropRelu)
        } else if ordinal == 1 {
            Some(Kernel::BackpropCrelu)
        } else if ordinal == 2 {
            Some(Kernel::BackpropScrelu)
        } else if ordinal == 3 {
            Some(Kernel::ActivateRelu)
        } else if ordinal == 4 {
            Some(Kernel::ActivateCrelu)
        } else if ordinal == 5 {
            Some(Kernel::ActivateScrelu)
        } else if ordinal == 6 {
            Some(Kernel::AddTo)
        } else if ordinal == 7 {
            Some(Kernel::SigmoidMpe)
        } else {
            None
        }
    }

    /// The name under which the device library holds this kernel.
    pub fn name(self) -> (r: &'static str)
        ensures
            r@ == self.name_spec(),
    {
        match self {
            Kernel::BackpropRelu => "backpropReLU",
            Kernel::BackpropCrelu => "backpropCReLU",
            Kernel::BackpropScrelu => "backpropSCReLU",
            Kernel::ActivateRelu => "activateReLU",
            Kernel::ActivateCrelu => "activateCReLU",
            Kernel::ActivateScrelu => "activateSCReLU",
            Kernel::AddTo => "addTo",
            Kernel::SigmoidMpe => "sigmoidMPE",
        }
    }

    /// Whether this kernel follows the two-buffer elementwise protocol.
    pub fn is_two_buffer(self) -> (b: bool)
        ensures
            b == self.is_two_buffer_spec(),
    {
        match self {
            Kernel::SigmoidMpe => false,
            _ => true,
        }
    }

    /// Every kernel, in catalog order.
    pub fn all() -> (r: Vec<Kernel>)
        ensures
            r@.len() == KERNEL_COUNT,
            forall|i: int| 0 <= i < r@.len() ==> Kernel::at_spec(i as nat) == Some(#[trigger] r@[i]),
    {
        let mut r: Vec<Kernel> = Vec::new();
        r.push(Kernel::BackpropRelu);
        r.push(Kernel::BackpropCrelu);
        r.push(Kernel::BackpropScrelu);
        r.push(Kernel::ActivateRelu);
        r.push(Kernel::ActivateCrelu);
        r.push(Kernel::ActivateScrelu);
        r.push(Kernel::AddTo);
        r.push(Kernel::SigmoidMpe);
        r
    }
}

/// Catalog order numbers the kernels one to one.
pub proof fn ordinal_round_trip(kernel: Kernel)
    ensures
        Kernel::at_spec(kernel.ordinal_spec()) == Some(kernel),
{
}

/// No two kernels share a name.
pub proof fn names_distinct(a: Kernel, b: Kernel)
    requires
        a != b,
    ensures
        a.name_spec() != b.name_spec(),
{
    reveal_strlit("backpropReLU");
    reveal_strlit("backpropCReLU");
    reveal_strlit("backpropSCReLU");
    reveal_strlit("activateReLU");
    reveal_strlit("activateCReLU");
    reveal_strlit("activateSCReLU");
    reveal_strlit("addTo");
    reveal_strlit("sigmoidMPE");
    let x = a.name_spec();
    let y = b.name_spec();
    if x.len() == y.len() {
        assert(x[0] != y[0] || x[8] != y[8]);
    }
}

/// Why a catalog could not be built.
#[derive(Clone, Copy, Debug, PartialEq, Eq, Structural)]
pub enum CatalogError {
    /// The library holds no function under this kernel's name.
    Missing(Kernel),
}

/// What looking up the kernel at `ordinal` gave: the entry of `found` there,
/// and nothing past its end.
pub open spec fn lookup<F>(found: Seq<Option<F>>, ordinal: int) -> Option<F> {
    if 0 <= ordinal < found.len() {
        found[ordinal]
    } else {
        None
    }
}

/// Whether every lookup before `upto` gave a handle.
pub open spec fn resolved_before<F>(found: Seq<Option<F>>, upto: int) -> bool {
    forall|i: int| 0 <= i < upto ==> (#[trigger] lookup(found, i)) is Some
}

/// One resolved handle per kernel of the catalog.
pub struct Kernels<F> {
    backprop_relu: F,
    backprop_crelu: F,
    backprop_screlu: F,
    activate_relu: F,
    activate_crelu: F,
    activate_screlu: F,
    add_to: F,
    sigmoid_mpe: F,
}

impl<F> Kernels<F> {
    /// The handle that stands for `kernel`.
    pub closed spec fn handle(self, kernel: Kernel) -> F {
        match kernel {
            Kernel::BackpropRelu => self.backprop_relu,
            Kernel::BackpropCrelu => self.backprop_crelu,
            Kernel::BackpropScrelu => self.backprop_screlu,
            Kernel::ActivateRelu => self.activate_relu,
            Kernel::ActivateCrelu => self.activate_crelu,
            Kernel::ActivateScrelu => self.activate_screlu,
            Kernel::AddTo => self.add_to,
            Kernel::SigmoidMpe => self.sigmoid_mpe,
        }
    }

    /// Builds the catalog from the lookups of the kernels' names, given in
    /// catalog order. Either every kernel has its handle or there is no
    /// catalog: the error names the first kernel whose lookup gave nothing.
    pub fn new(found: Vec<Option<F>>) -> (r: Result<Kernels<F>, CatalogError>)
        ensures
            r is Ok <==> resolved_before(found@, KERNEL_COUNT as int),
            r matches Ok(k) ==> forall|kernel: Kernel|
                Some(#[trigger] k.handle(kernel)) == lookup(found@, kernel.ordinal_spec() as int),
            r matches Err(CatalogError::Missing(kernel)) ==> {
                &&& lookup(found@, kernel.ordinal_spec() as int) is None
                &&& resolved_before(found@, kernel.ordinal_spec() as int)
            },
    {
        let mut rest = found;
        let ghost given = found@;
        let mut i: usize = 0;
        while i < KERNEL_COUNT
            invariant
                i <= KERNEL_COUNT,
                rest@ == given,
                found@ == given,
                resolved_before(given, i as int),
            decreases KERNEL_COUNT - i,
        {
            if i >= rest.len() || rest[i].is_none() {
                let kernel = Kernel::at(i).unwrap();
                return Err(CatalogError::Missing(kernel));
            }
            i += 1;
        }
        assert(lookup(given, 7) is Some);
        assert(lookup(given, 0) is Some);
        let backprop_relu = rest.remove(0).unwrap();
        assert(lookup(given, 1) is Some);
        let backprop_crelu = rest.remove(0).unwrap();
        assert(lookup(given, 2) is Some);
        let backprop_screlu = rest.remove(0).unwrap();
        assert(lookup(given, 3) is Some);
        let activate_relu = rest.remove(0).unwrap();
        assert(lookup(given, 4) is Some);
        let activate_crelu = rest.remove(0).unwrap();
        assert(lookup(given, 5) is Some);
        let activate_screlu = rest.remove(0).unwrap();
        assert(lookup(given, 6) is Some);
        let add_to = rest.remove(0).unwrap();
        let sigmoid_mpe = rest.remove(0).unwrap();
        Ok(
            Kernels {
                backprop_relu,
                backprop_crelu,
                backprop_screlu,
                activate_relu,
                activate_crelu,
                activate_screlu,
                add_to,
                sigmoid_mpe,
            },
        )
    }

    /// The handle of `kernel`.
    pub fn get(&self, kernel: Kernel) -> (r: &F)
        ensures
            *r == self.handle(kernel),
    {
        match kernel {
            Kernel::BackpropRelu => &self.backprop_relu,
            Kernel::BackpropCrelu => &self.backprop_crelu,
            Kernel::BackpropScrelu => &self.backprop_screlu,
            Kernel::ActivateRelu => &self.activate_relu,
            Kernel::ActivateCrelu => &self.activate_crelu,
            Kernel::ActivateScrelu => &self.activate_screlu,
            Kernel::AddTo => &self.add_to,
            Kernel::SigmoidMpe => &self.sigmoid_mpe,
        }
    }
}

} // verus!
