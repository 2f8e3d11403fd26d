//! Bus-agnostic driver core for the BMI088 inertial measurement unit.
//!
//! The library describes every bus exchange as plain data: device operations
//! produce register-level [`interface::Request`]s, each transport frames a
//! request into the bytes of one bus transfer and extracts the register data
//! from what the bus returned, and the decoders turn register bytes into
//! samples. Performing the transfers is left to the caller.
use core::marker::PhantomData;
use vstd::prelude::*;

pub mod acc_impl;
pub mod decode;
pub mod gyro_impl;
pub mod interface;
pub mod register_address;
mod sealed;

verus! {

/// Entry point for building the two sub-sensors of one BMI088.
#[derive(Debug)]
pub struct Bmi088<DI> {
    _p: PhantomData<DI>,
}

/// Failures of a device operation.
#[derive(Debug, PartialEq)]
pub enum Error<E> {
    /// The bus reported an error; it is handed on unchanged.
    IOError(E),
    /// The gyroscope's built-in self-test reports a malfunction.
    GyroFunctionUnproper,
    /// The accelerometer has no new sample ready.
    NoDrdy,
}

} // verus!
