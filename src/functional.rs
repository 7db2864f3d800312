use vstd::prelude::*;

verus! {

/// The physical category of a functional.
#[derive(Clone, Copy, Debug, PartialEq, Eq, Structural)]
pub enum FunctionalKind {
    Exchange,
    Correlation,
    ExchangeCorrelation,
    Kinetic,
}

impl FunctionalKind {
    /// The native integer code of this kind.
    pub open spec fn code(self) -> int {
        match self {
            FunctionalKind::Exchange => 0,
            FunctionalKind::Correlation => 1,
            FunctionalKind::ExchangeCorrelation => 2,
            FunctionalKind::Kinetic => 3,
        }
    }

    /// Decodes a native kind code; `None` when no kind has that code.
    pub fn from_i32(code: i32) -> (r: Option<FunctionalKind>)
        ensures
            match r {
                Some(k) => k.code() == code,
                None => forall|k: FunctionalKind| #[trigger] k.code() != code,
            },
    {
        match code {
            0 => Some(FunctionalKind::Exchange),
            1 => Some(FunctionalKind::Correlation),
            2 => Some(FunctionalKind::ExchangeCorrelation),
            3 => Some(FunctionalKind::Kinetic),
            _ => None,
        }
    }

    /// Encodes this kind as its native integer code.
    pub fn to_i32(&self) -> (r: i32)
        ensures
            r == self.code(),
    {
        match self {
            FunctionalKind::Exchange => 0,
            FunctionalKind::Correlation => 1,
            FunctionalKind::ExchangeCorrelation => 2,
            FunctionalKind::Kinetic => 3,
        }
    }
}

/// The mathematical class of approximation of a functional.
#[derive(Clone, Copy, Debug, PartialEq, Eq, Structural)]
pub enum FunctionalFamily {
    Unknown,
    LDA,
    GGA,
    MGGA,
    LCA,
    OEP,
    HybridGGA,
    HybridMGGA,
    HybridLDA,
}

impl FunctionalFamily {
    /// The native integer code of this family: a power of two, or -1 for `Unknown`.
    pub open spec fn code(self) -> int {
        match self {
            FunctionalFamily::Unknown => -1,
            FunctionalFamily::LDA => 1,
            FunctionalFamily::GGA => 2,
            FunctionalFamily::MGGA => 4,
            FunctionalFamily::LCA => 8,
            FunctionalFamily::OEP => 16,
            FunctionalFamily::HybridGGA => 32,
            FunctionalFamily::HybridMGGA => 64,
            FunctionalFamily::HybridLDA => 128,
        }
    }

    /// Decodes a native family code; `None` when no family has that code.
    pub fn from_i32(code: i32) -> (r: Option<FunctionalFamily>)
        ensures
            match r {
                Some(f) => f.code() == code,
                None => forall|f: FunctionalFamily| #[trigger] f.code() != code,
            },
    {
        match code {
            -1 => Some(FunctionalFamily::Unknown),
            1 => Some(FunctionalFamily::LDA),
            2 => Some(FunctionalFamily::GGA),
            4 => Some(FunctionalFamily::MGGA),
            8 => Some(FunctionalFamily::LCA),
            16 => Some(FunctionalFamily::OEP),
            32 => Some(FunctionalFamily::HybridGGA),
            64 => Some(FunctionalFamily::HybridMGGA),
            128 => Some(FunctionalFamily::HybridLDA),
            _ => None,
        }
    }

    /// Encodes this family as its native integer code.
    pub fn to_i32(&self) -> (r: i32)
        ensures
            r == self.code(),
    {
        match self {
            FunctionalFamily::Unknown => -1,
            FunctionalFamily::LDA => 1,
            FunctionalFamily::GGA => 2,
            FunctionalFamily::MGGA => 4,
            FunctionalFamily::LCA => 8,
            FunctionalFamily::OEP => 16,
            FunctionalFamily::HybridGGA => 32,
            FunctionalFamily::HybridMGGA => 64,
            FunctionalFamily::HybridLDA => 128,
        }
    }
}

/// Whether a functional is evaluated with separate spin channels.
#[derive(Clone, Copy, Debug, PartialEq, Eq, Structural)]
pub enum Polarization {
    Unpolarized,
    Polarized,
}

impl Polarization {
    /// The integer that the native initialization takes for this polarization.
    pub open spec fn code(self) -> int {
        match self {
            Polarization::Unpolarized => 1,
            Polarization::Polarized => 2,
        }
    }

    /// Encodes this polarization for the native initialization.
    pub fn to_i32(&self) -> (r: i32)
        ensures
            r == self.code(),
    {
        match self {
            Polarization::Unpolarized => 1,
            Polarization::Polarized => 2,
        }
    }
}

/// The identity and metadata of one initialized native functional, as read
/// through its info record. The native instance itself is owned by the caller.
#[derive(Debug)]
pub struct Functional {
    pub number: i32,
    pub polarization: Polarization,
    pub name: String,
    pub kind: FunctionalKind,
    pub family: FunctionalFamily,
    pub flags: i32,
}

impl Functional {
    /// Builds the functional from the raw fields of its native info record,
    /// decoding the kind and family codes; `None` when either code is unknown.
    pub fn from_info(
        polarization: Polarization,
        number: i32,
        name: String,
        kind_code: i32,
        family_code: i32,
        flags: i32,
    ) -> (r: Option<Functional>)
        ensures
            r is Some <==> (exists|k: FunctionalKind| #[trigger] k.code() == kind_code) && (exists|
                f: FunctionalFamily,
            | #[trigger] f.code() == family_code),
            r matches Some(func) ==> {
                &&& func.number == number
                &&& func.polarization == polarization
                &&& func.name@ == name@
                &&& func.kind.code() == kind_code
                &&& func.family.code() == family_code
                &&& func.flags == flags
            },
    {
        let kind = FunctionalKind::from_i32(kind_code);
        let family = FunctionalFamily::from_i32(family_code);
        match (kind, family) {
            (Some(kind), Some(family)) => Some(Functional { number, polarization, name, kind, family, flags }),
            _ => None,
        }
    }

    /// The name of the functional.
    pub fn name(&self) -> (r: String)
        ensures
            r@ == self.name@,
    {
        self.name.clone()
    }

    /// The ID of the functional.
    pub fn number(&self) -> (r: i32)
        ensures
            r == self.number,
    {
        self.number
    }

    /// The kind of the functional.
    pub fn kind(&self) -> (r: FunctionalKind)
        ensures
            r == self.kind,
    {
        self.kind
    }

    /// The family of the functional.
    pub fn family(&self) -> (r: FunctionalFamily)
        ensures
            r == self.family,
    {
        self.family
    }

    /// The flags of the functional, an undecoded native bitmask.
    pub fn flags(&self) -> (r: i32)
        ensures
            r == self.flags,
    {
        self.flags
    }

    /// The polarization the functional was initialized with.
    pub fn polarization(&self) -> (r: Polarization)
        ensures
            r == self.polarization,
    {
        self.polarization
    }
}

impl Clone for Functional {
    /// A copy with the same identity and metadata; the caller initializes its
    /// own native instance for it.
    fn clone(&self) -> (r: Functional)
        ensures
            r.number == self.number,
            r.polarization == self.polarization,
            r.name@ == self.name@,
            r.kind == self.kind,
            r.family == self.family,
            r.flags == self.flags,
    {
        Functional {
            number: self.number,
            polarization: self.polarization,
            name: self.name.clone(),
            kind: self.kind,
            family: self.family,
            flags: self.flags,
        }
    }
}

} // verus!
