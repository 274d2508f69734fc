//! What a measurement becomes on its way to the notification sink.
use vstd::prelude::*;

verus! {

/// The two characteristic values of an ambient measurement, in the order in
/// which they are notified: humidity first, then temperature.
#[derive(Clone, Copy, Debug, PartialEq, Eq, Structural)]
pub struct AmbientNotification {
    /// Relative humidity in hundredths of a percent.
    pub humidity: i16,
    /// Temperature in hundredths of a degree Celsius.
    pub temperature: i16,
}

/// A thousandth-unit reading in hundredths, rounded towards zero.
pub open spec fn hundredths(milli: i32) -> int {
    if milli >= 0 {
        milli / 10
    } else {
        -((-milli) / 10)
    }
}

/// Scales a reading in thousandths to a 16-bit characteristic in
/// hundredths: divided by ten, rounded towards zero, and cut to 16 bits.
fn scale(milli: i32) -> (r: i16)
    ensures
        r == hundredths(milli) as i16,
{
    let centi: i32 = milli / 10;
    #[verifier::truncate]
    (centi as i16)
}

/// The characteristic values for a measurement given in thousandths of a
/// percent and of a degree Celsius.
pub fn notify_ambient(humidity_millipercent: i32, temperature_millidegrees: i32) -> (r:
    AmbientNotification)
    ensures
        r.humidity == hundredths(humidity_millipercent) as i16,
        r.temperature == hundredths(temperature_millidegrees) as i16,
{
    AmbientNotification {
        humidity: scale(humidity_millipercent),
        temperature: scale(temperature_millidegrees),
    }
}

/// A reading between -327.68 and 327.68 units keeps its value in a
/// characteristic; every reading that the sensor can produce lies in that
/// range.
pub proof fn lemma_reading_fits(milli: i32)
    requires
        -327_680 <= milli < 327_680,
    ensures
        (hundredths(milli) as i16) as int == hundredths(milli),
{
}

/// An axis of a three-axis reading.
#[derive(Clone, Copy, Debug, PartialEq, Eq, Structural)]
pub enum Axis {
    X,
    Y,
    Z,
}

/// One characteristic update of an inertial measurement.
#[derive(Clone, Copy, Debug, PartialEq, Eq, Structural)]
pub enum Update {
    /// An axis of the acceleration.
    Acceleration(Axis),
    /// An axis of the angular rate.
    Gyroscope(Axis),
    /// An axis of the inclination.
    Inclination(Axis),
}

/// The updates that an inertial measurement is notified with, in order: the
/// three axes of the acceleration, then those of the angular rate, then
/// those of the inclination where the measurement has one.
pub open spec fn imu_updates(with_inclination: bool) -> Seq<Update> {
    let fixed = seq![
        Update::Acceleration(Axis::X),
        Update::Acceleration(Axis::Y),
        Update::Acceleration(Axis::Z),
        Update::Gyroscope(Axis::X),
        Update::Gyroscope(Axis::Y),
        Update::Gyroscope(Axis::Z),
    ];
    if with_inclination {
        fixed + seq![
            Update::Inclination(Axis::X),
            Update::Inclination(Axis::Y),
            Update::Inclination(Axis::Z),
        ]
    } else {
        fixed
    }
}

/// The update to make once `done` updates of `plan` have been made, the
/// last of which succeeded or not. A failed update ends the notification:
/// the updates before it have been sent, and none after it is.
pub open spec fn update_after(plan: Seq<Update>, done: nat, last_ok: bool) -> Option<Update> {
    if last_ok && done < plan.len() {
        Some(plan[done as int])
    } else {
        None
    }
}

/// The updates to notify an inertial measurement with, in order.
pub fn notify_imu(with_inclination: bool) -> (plan: Vec<Update>)
    ensures
        plan@ == imu_updates(with_inclination),
{
    let mut plan: Vec<Update> = Vec::new();
    plan.push(Update::Acceleration(Axis::X));
    plan.push(Update::Acceleration(Axis::Y));
    plan.push(Update::Acceleration(Axis::Z));
    plan.push(Update::Gyroscope(Axis::X));
    plan.push(Update::Gyroscope(Axis::Y));
    plan.push(Update::Gyroscope(Axis::Z));
    if with_inclination {
        plan.push(Update::Inclination(Axis::X));
        plan.push(Update::Inclination(Axis::Y));
        plan.push(Update::Inclination(Axis::Z));
    }
    assert(plan@ =~= imu_updates(with_inclination));
    plan
}

/// The update to make next, if any; see [`update_after`].
pub fn next_update(plan: &Vec<Update>, done: usize, last_ok: bool) -> (next: Option<Update>)
    ensures
        next == update_after(plan@, done as nat, last_ok),
{
    if last_ok && done < plan.len() {
        Some(plan[done])
    } else {
        None
    }
}

} // verus!
