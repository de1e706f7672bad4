use vstd::prelude::*;

verus! {

/// Prototype of a FIR filter design, numbered as the DSP library numbers them.
#[allow(non_camel_case_types)]
#[derive(Clone, Copy, Debug, PartialEq, Eq, Structural)]
pub enum FirFilterType {
    /// unknown filter type
    LIQUID_FIRFILT_UNKNOWN,
    /// Nyquist Kaiser filter
    LIQUID_FIRFILT_KAISER,
    /// Parks-McClellan filter
    LIQUID_FIRFILT_PM,
    /// raised-cosine filter
    LIQUID_FIRFILT_RCOS,
    /// flipped exponential
    LIQUID_FIRFILT_FEXP,
    /// flipped hyperbolic secant
    LIQUID_FIRFILT_FSECH,
    /// flipped arc-hyperbolic secant
    LIQUID_FIRFILT_FARCSECH,
    /// root-Nyquist Kaiser (approximate optimum)
    LIQUID_FIRFILT_ARKAISER,
    /// root-Nyquist Kaiser (true optimum)
    LIQUID_FIRFILT_RKAISER,
    /// root raised-cosine
    LIQUID_FIRFILT_RRC,
    /// harris-Moerder-3 filter
    LIQUID_FIRFILT_hM3,
    /// GMSK transmit filter
    LIQUID_FIRFILT_GMSKTX,
    /// GMSK receive filter
    LIQUID_FIRFILT_GMSKRX,
    /// root flipped exponential
    LIQUID_FIRFILT_RFEXP,
    /// root flipped hyperbolic secant
    LIQUID_FIRFILT_RFSECH,
    /// root flipped arc-hyperbolic secant
    LIQUID_FIRFILT_RFARCSECH,
}

/// Why a filter cannot be designed from the given integer parameters.
#[derive(Clone, Copy, Debug, PartialEq, Eq, Structural)]
pub enum FilterError {
    /// A window design needs at least one coefficient.
    ZeroLength,
    /// The prototype tag selects no design.
    UnknownType,
    /// A pulse-shaping prototype needs more than one sample per symbol.
    TooFewSamplesPerSymbol,
    /// A pulse-shaping prototype needs a delay of at least one symbol.
    ZeroDelay,
}

impl FirFilterType {
    /// The number by which the DSP library identifies the prototype.
    pub open spec fn code_spec(self) -> int {
        match self {
            FirFilterType::LIQUID_FIRFILT_UNKNOWN => 0,
            FirFilterType::LIQUID_FIRFILT_KAISER => 1,
            FirFilterType::LIQUID_FIRFILT_PM => 2,
            FirFilterType::LIQUID_FIRFILT_RCOS => 3,
            FirFilterType::LIQUID_FIRFILT_FEXP => 4,
            FirFilterType::LIQUID_FIRFILT_FSECH => 5,
            FirFilterType::LIQUID_FIRFILT_FARCSECH => 6,
            FirFilterType::LIQUID_FIRFILT_ARKAISER => 7,
            FirFilterType::LIQUID_FIRFILT_RKAISER => 8,
            FirFilterType::LIQUID_FIRFILT_RRC => 9,
            FirFilterType::LIQUID_FIRFILT_hM3 => 10,
            FirFilterType::LIQUID_FIRFILT_GMSKTX => 11,
            FirFilterType::LIQUID_FIRFILT_GMSKRX => 12,
            FirFilterType::LIQUID_FIRFILT_RFEXP => 13,
            FirFilterType::LIQUID_FIRFILT_RFSECH => 14,
            FirFilterType::LIQUID_FIRFILT_RFARCSECH => 15,
        }
    }

    /// Plain Nyquist prototypes.
    pub open spec fn is_nyquist_spec(self) -> bool {
        1 <= self.code_spec() <= 6
    }

    /// Square-root Nyquist prototypes.
    pub open spec fn is_root_nyquist_spec(self) -> bool {
        7 <= self.code_spec() <= 15
    }

    /// The number by which the DSP library identifies the prototype.
    pub fn code(&self) -> (r: i32)
        ensures
            r == self.code_spec(),
    {
        match self {
            FirFilterType::LIQUID_FIRFILT_UNKNOWN => 0,
            FirFilterType::LIQUID_FIRFILT_KAISER => 1,
            FirFilterType::LIQUID_FIRFILT_PM => 2,
            FirFilterType::LIQUID_FIRFILT_RCOS => 3,
            FirFilterType::LIQUID_FIRFILT_FEXP => 4,
            FirFilterType::LIQUID_FIRFILT_FSECH => 5,
            FirFilterType::LIQUID_FIRFILT_FARCSECH => 6,
            FirFilterType::LIQUID_FIRFILT_ARKAISER => 7,
            FirFilterType::LIQUID_FIRFILT_RKAISER => 8,
            FirFilterType::LIQUID_FIRFILT_RRC => 9,
            FirFilterType::LIQUID_FIRFILT_hM3 => 10,
            FirFilterType::LIQUID_FIRFILT_GMSKTX => 11,
            FirFilterType::LIQUID_FIRFILT_GMSKRX => 12,
            FirFilterType::LIQUID_FIRFILT_RFEXP => 13,
            FirFilterType::LIQUID_FIRFILT_RFSECH => 14,
            FirFilterType::LIQUID_FIRFILT_RFARCSECH => 15,
        }
    }

    /// The prototype that the DSP library numbers `code`, if any.
    pub fn from_code(code: i32) -> (r: Option<FirFilterType>)
        ensures
            match r {
                Some(t) => t.code_spec() == code,
                None => code < 0 || code > 15,
            },
    {
        match code {
            0 => Some(FirFilterType::LIQUID_FIRFILT_UNKNOWN),
            1 => Some(FirFilterType::LIQUID_FIRFILT_KAISER),
            2 => Some(FirFilterType::LIQUID_FIRFILT_PM),
            3 => Some(FirFilterType::LIQUID_FIRFILT_RCOS),
            4 => Some(FirFilterType::LIQUID_FIRFILT_FEXP),
            5 => Some(FirFilterType::LIQUID_FIRFILT_FSECH),
            6 => Some(FirFilterType::LIQUID_FIRFILT_FARCSECH),
            7 => Some(FirFilterType::LIQUID_FIRFILT_ARKAISER),
            8 => Some(FirFilterType::LIQUID_FIRFILT_RKAISER),
            9 => Some(FirFilterType::LIQUID_FIRFILT_RRC),
            10 => Some(FirFilterType::LIQUID_FIRFILT_hM3),
            11 => Some(FirFilterType::LIQUID_FIRFILT_GMSKTX),
            12 => Some(FirFilterType::LIQUID_FIRFILT_GMSKRX),
            13 => Some(FirFilterType::LIQUID_FIRFILT_RFEXP),
            14 => Some(FirFilterType::LIQUID_FIRFILT_RFSECH),
            15 => Some(FirFilterType::LIQUID_FIRFILT_RFARCSECH),
            _ => None,
        }
    }

    /// Whether the prototype belongs to the plain Nyquist family.
    pub fn is_nyquist(&self) -> (r: bool)
        ensures
            r == self.is_nyquist_spec(),
    {
        let c = self.code();
        1 <= c && c <= 6
    }

    /// Whether the prototype belongs to the square-root Nyquist family.
    pub fn is_root_nyquist(&self) -> (r: bool)
        ensures
            r == self.is_root_nyquist_spec(),
    {
        let c = self.code();
        7 <= c && c <= 15
    }
}

/// Prototypes are numbered 0 to 15, distinct prototypes by distinct numbers, and every
/// prototype but the unknown tag belongs to exactly one of the two families.
pub proof fn filter_type_codes_distinct(t: FirFilterType, u: FirFilterType)
    ensures
        0 <= t.code_spec() <= 15,
        t.code_spec() == u.code_spec() ==> t == u,
        t.is_nyquist_spec() || t.is_root_nyquist_spec() || t
            == FirFilterType::LIQUID_FIRFILT_UNKNOWN,
        !(t.is_nyquist_spec() && t.is_root_nyquist_spec()),
{
}

/// Checks the integer parameter of a Kaiser-window design: the length must be positive.
pub fn check_kaiser_length(len: u32) -> (r: Result<(), FilterError>)
    ensures
        r is Ok <==> len > 0,
        r is Err ==> r == Err::<(), FilterError>(FilterError::ZeroLength),
{
    if len == 0 {
        Err(FilterError::ZeroLength)
    } else {
        Ok(())
    }
}

/// Checks the integer parameters of a pulse-shaping prototype design: a known prototype,
/// more than one sample per symbol (`k`) and a delay of at least one symbol (`m`), checked
/// in that order.
pub fn check_prototype(t: FirFilterType, k: u32, m: u32) -> (r: Result<(), FilterError>)
    ensures
        r is Ok <==> (t != FirFilterType::LIQUID_FIRFILT_UNKNOWN && k > 1 && m > 0),
        t == FirFilterType::LIQUID_FIRFILT_UNKNOWN ==> r == Err::<(), FilterError>(
            FilterError::UnknownType,
        ),
        t != FirFilterType::LIQUID_FIRFILT_UNKNOWN && k <= 1 ==> r == Err::<(), FilterError>(
            FilterError::TooFewSamplesPerSymbol,
        ),
        t != FirFilterType::LIQUID_FIRFILT_UNKNOWN && k > 1 && m == 0 ==> r == Err::<
            (),
            FilterError,
        >(FilterError::ZeroDelay),
{
    if t == FirFilterType::LIQUID_FIRFILT_UNKNOWN {
        Err(FilterError::UnknownType)
    } else if k <= 1 {
        Err(FilterError::TooFewSamplesPerSymbol)
    } else if m == 0 {
        Err(FilterError::ZeroDelay)
    } else {
        Ok(())
    }
}

} // verus!
