use vstd::prelude::*;

verus! {

/// Trading direction read off the sign of a unit rotation's scalar part.
#[derive(Clone, Copy, Debug, PartialEq, Eq, Structural)]
pub enum Direction {
    Buy,
    Sell,
}

/// Where the alignment `|unit.w|` of a tick falls among the thresholds
/// 0.3, 0.4 and 0.7 that the current-signal rules test.
#[derive(Clone, Copy, Debug, PartialEq, Eq, Structural)]
pub enum AlignmentBand {
    /// alignment < 0.3
    Low,
    /// 0.3 <= alignment <= 0.4
    Middle,
    /// 0.4 < alignment <= 0.7
    Moderate,
    /// alignment > 0.7
    High,
}

/// The classification of the current tick.
#[derive(Clone, Copy, Debug, PartialEq, Eq, Structural)]
pub enum CurrentSignal {
    /// Large magnitude, high alignment: low curvature.
    Strong(Direction),
    /// Large magnitude, moderate alignment: moderate curvature.
    Moderate(Direction),
    /// Alignment too low to call a direction.
    HoldHighCurvature,
    /// Nothing decisive.
    HoldNeutral,
}

/// The classification of the one-step-ahead forecast.
#[derive(Clone, Copy, Debug, PartialEq, Eq, Structural)]
pub enum SpeculativeSignal {
    /// Predicted angle below 60 degrees: predicted low curvature.
    Strong(Direction),
    /// Predicted angle of 60 degrees or more: curvature still evolving.
    Evolving(Direction),
}

/// The outcomes of the threshold tests that one tick's real-valued
/// quantities went through.
#[derive(Clone, Copy, Debug, PartialEq, Eq, Structural)]
pub struct Readings {
    /// norm of the raw sample > 15
    pub strong_magnitude: bool,
    /// band of the alignment of the unit rotation
    pub alignment: AlignmentBand,
    /// sign of the unit rotation's scalar part
    pub direction: Direction,
    /// predicted rotation angle < 60 degrees
    pub predicted_low_curvature: bool,
    /// sign of the predicted rotation's scalar part
    pub predicted_direction: Direction,
}

/// Both signals of one tick.
#[derive(Clone, Copy, Debug, PartialEq, Eq, Structural)]
pub struct Signals {
    pub current: CurrentSignal,
    pub speculative: SpeculativeSignal,
}

/// The current-signal rules, first match wins:
/// large magnitude with high alignment, then large magnitude with moderate
/// alignment, then low alignment, else neutral.
pub open spec fn current_rule(strong_magnitude: bool, band: AlignmentBand, d: Direction) -> CurrentSignal {
    if strong_magnitude && band == AlignmentBand::High {
        CurrentSignal::Strong(d)
    } else if strong_magnitude && (band == AlignmentBand::High || band == AlignmentBand::Moderate) {
        CurrentSignal::Moderate(d)
    } else if band == AlignmentBand::Low {
        CurrentSignal::HoldHighCurvature
    } else {
        CurrentSignal::HoldNeutral
    }
}

pub open spec fn speculative_rule(low_curvature: bool, d: Direction) -> SpeculativeSignal {
    if low_curvature {
        SpeculativeSignal::Strong(d)
    } else {
        SpeculativeSignal::Evolving(d)
    }
}

pub open spec fn signals_of(r: Readings) -> Signals {
    Signals {
        current: current_rule(r.strong_magnitude, r.alignment, r.direction),
        speculative: speculative_rule(r.predicted_low_curvature, r.predicted_direction),
    }
}

impl Direction {
    /// `Buy` when the scalar part is strictly positive, `Sell` otherwise.
    pub fn from_sign(scalar_positive: bool) -> (r: Direction)
        ensures
            r == (if scalar_positive { Direction::Buy } else { Direction::Sell }),
    {
        if scalar_positive {
            Direction::Buy
        } else {
            Direction::Sell
        }
    }
}

impl CurrentSignal {
    pub open spec fn label_spec(self) -> Seq<char> {
        match self {
            CurrentSignal::Strong(Direction::Buy) => "STRONG BUY (Low Curvature)"@,
            CurrentSignal::Strong(Direction::Sell) => "STRONG SELL (Low Curvature)"@,
            CurrentSignal::Moderate(Direction::Buy) => "BUY (Moderate Curvature)"@,
            CurrentSignal::Moderate(Direction::Sell) => "SELL (Moderate Curvature)"@,
            CurrentSignal::HoldHighCurvature => "HOLD (High Curvature)"@,
            CurrentSignal::HoldNeutral => "HOLD (Neutral)"@,
        }
    }

    /// The signal as text, for display.
    pub fn label(&self) -> (r: &'static str)
        ensures
            r@ == self.label_spec(),
    {
        match self {
            CurrentSignal::Strong(Direction::Buy) => "STRONG BUY (Low Curvature)",
            CurrentSignal::Strong(Direction::Sell) => "STRONG SELL (Low Curvature)",
            CurrentSignal::Moderate(Direction::Buy) => "BUY (Moderate Curvature)",
            CurrentSignal::Moderate(Direction::Sell) => "SELL (Moderate Curvature)",
            CurrentSignal::HoldHighCurvature => "HOLD (High Curvature)",
            CurrentSignal::HoldNeutral => "HOLD (Neutral)",
        }
    }
}

impl SpeculativeSignal {
    pub open spec fn label_spec(self) -> Seq<char> {
        match self {
            SpeculativeSignal::Strong(Direction::Buy) => "STRONG BUY (Predicted Low Curvature)"@,
            SpeculativeSignal::Strong(Direction::Sell) => "STRONG SELL (Predicted Low Curvature)"@,
            SpeculativeSignal::Evolving(Direction::Buy) => "BUY (Predicted Evolving Curvature)"@,
            SpeculativeSignal::Evolving(Direction::Sell) => "SELL (Predicted Evolving Curvature)"@,
        }
    }

    /// The forecast as text, for display.
    pub fn label(&self) -> (r: &'static str)
        ensures
            r@ == self.label_spec(),
    {
        match self {
            SpeculativeSignal::Strong(Direction::Buy) => "STRONG BUY (Predicted Low Curvature)",
            SpeculativeSignal::Strong(Direction::Sell) => "STRONG SELL (Predicted Low Curvature)",
            SpeculativeSignal::Evolving(Direction::Buy) => "BUY (Predicted Evolving Curvature)",
            SpeculativeSignal::Evolving(Direction::Sell) => "SELL (Predicted Evolving Curvature)",
        }
    }
}

/// Classifies the current tick by the rules of `current_rule`, in their order.
pub fn classify_current(strong_magnitude: bool, band: AlignmentBand, direction: Direction) -> (r:
    CurrentSignal)
    ensures
        r == current_rule(strong_magnitude, band, direction),
        // a low-alignment tick never gets a direction, however large its magnitude
        band == AlignmentBand::Low ==> r == CurrentSignal::HoldHighCurvature,
        (r is Strong || r is Moderate) ==> strong_magnitude,
{
    if strong_magnitude && band == AlignmentBand::High {
        CurrentSignal::Strong(direction)
    } else if strong_magnitude && (band == AlignmentBand::High || band == AlignmentBand::Moderate) {
        CurrentSignal::Moderate(direction)
    } else if band == AlignmentBand::Low {
        CurrentSignal::HoldHighCurvature
    } else {
        CurrentSignal::HoldNeutral
    }
}

/// Classifies the forecast: strong when the predicted angle is below 60 degrees.
pub fn classify_speculative(low_curvature: bool, direction: Direction) -> (r: SpeculativeSignal)
    ensures
        r == speculative_rule(low_curvature, direction),
{
    if low_curvature {
        SpeculativeSignal::Strong(direction)
    } else {
        SpeculativeSignal::Evolving(direction)
    }
}

/// Both signals of a tick from its readings.
pub fn classify(readings: &Readings) -> (r: Signals)
    ensures
        r == signals_of(*readings),
{
    Signals {
        current: classify_current(readings.strong_magnitude, readings.alignment, readings.direction),
        speculative: classify_speculative(
            readings.predicted_low_curvature,
            readings.predicted_direction,
        ),
    }
}

/// Why a tick could not be evaluated.
#[derive(Clone, Copy, Debug, PartialEq, Eq, Structural)]
pub enum EngineError {
    /// The volume was not strictly positive, so its logarithm is undefined.
    InvalidInput,
}

/// Both signals of a tick, provided its volume is strictly positive:
/// a tick with a volume of zero or below is rejected with `InvalidInput`.
pub fn classify_tick(volume_positive: bool, readings: &Readings) -> (r: Result<Signals, EngineError>)
    ensures
        !volume_positive <==> r == Err::<Signals, EngineError>(EngineError::InvalidInput),
        volume_positive ==> r == Ok::<Signals, EngineError>(signals_of(*readings)),
{
    if !volume_positive {
        return Err(EngineError::InvalidInput);
    }
    Ok(classify(readings))
}

} // verus!
