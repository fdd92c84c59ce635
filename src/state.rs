//! The device state shared by every HTTP worker and the control loop.
use vstd::prelude::*;

verus! {

/// The four measured or commanded values of the device.
pub struct AppState {
    pub current_temp: i32,
    pub setpoint_temp: i32,
    pub run_time_elapsed: i32,
    pub run_time_total: i32,
}

/// A snapshot of the device state, as reported by `/get_state`.
#[derive(Clone, Copy, Debug, PartialEq, Eq, Structural)]
pub struct AppStateValue {
    pub current_temp: i32,
    pub setpoint_temp: i32,
    pub run_time_elapsed: i32,
    pub run_time_total: i32,
}

/// The value of `v + 1` in 32-bit two's complement.
pub open spec fn wrapping_inc(v: i32) -> i32 {
    if v == i32::MAX {
        i32::MIN
    } else {
        (v + 1) as i32
    }
}

impl AppState {
    /// The state at power-up: every value zero.
    pub fn new() -> (r: AppState)
        ensures
            r.current_temp == 0,
            r.setpoint_temp == 0,
            r.run_time_elapsed == 0,
            r.run_time_total == 0,
    {
        AppState { current_temp: 0, setpoint_temp: 0, run_time_elapsed: 0, run_time_total: 0 }
    }

    pub open spec fn view_value(&self) -> AppStateValue {
        AppStateValue {
            current_temp: self.current_temp,
            setpoint_temp: self.setpoint_temp,
            run_time_elapsed: self.run_time_elapsed,
            run_time_total: self.run_time_total,
        }
    }

    /// Raises the setpoint by one, wrapping at the top of the `i32` range.
    pub fn increment_setpoint(&mut self)
        ensures
            final(self).setpoint_temp == wrapping_inc(old(self).setpoint_temp),
            final(self).current_temp == old(self).current_temp,
            final(self).run_time_elapsed == old(self).run_time_elapsed,
            final(self).run_time_total == old(self).run_time_total,
    {
        self.setpoint_temp = self.setpoint_temp.wrapping_add(1);
    }

    /// Replaces the setpoint.
    pub fn set_setpoint(&mut self, value: i32)
        ensures
            final(self).setpoint_temp == value,
            final(self).current_temp == old(self).current_temp,
            final(self).run_time_elapsed == old(self).run_time_elapsed,
            final(self).run_time_total == old(self).run_time_total,
    {
        self.setpoint_temp = value;
    }

    /// Replaces the setpoint and the total run time.
    pub fn set_config(&mut self, temperature: i32, time: i32)
        ensures
            final(self).setpoint_temp == temperature,
            final(self).run_time_total == time,
            final(self).current_temp == old(self).current_temp,
            final(self).run_time_elapsed == old(self).run_time_elapsed,
    {
        self.setpoint_temp = temperature;
        self.run_time_total = time;
    }
}

impl AppStateValue {
    /// Reads every field of the state.
    pub fn from_ref(state: &AppState) -> (r: AppStateValue)
        ensures
            r == state.view_value(),
    {
        AppStateValue {
            current_temp: state.current_temp,
            setpoint_temp: state.setpoint_temp,
            run_time_elapsed: state.run_time_elapsed,
            run_time_total: state.run_time_total,
        }
    }
}

} // verus!
