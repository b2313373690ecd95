//! The weather record: a snapshot of the current conditions at one place.
//!
//! Fractional readings are held as the IEEE 754 bit pattern of the number, so
//! that a record compares and copies exactly.

use vstd::prelude::*;

verus! {

/// Where a record was taken.
#[derive(Debug, PartialEq, Eq)]
pub struct Location {
    pub name: String,
    pub region: String,
    pub country: String,
    /// Latitude, as the bit pattern of a 64-bit float.
    pub lat: u64,
    /// Longitude, as the bit pattern of a 64-bit float.
    pub lon: u64,
    pub tz_id: String,
    pub localtime_epoch: i64,
    pub localtime: String,
}

/// The conditions at that place.
#[derive(Debug, PartialEq, Eq)]
pub struct Current {
    pub last_updated_epoch: i64,
    pub last_updated: String,
    /// Temperature in degrees Celsius, as the bit pattern of a 32-bit float.
    pub temp_c: u32,
    /// Temperature in degrees Fahrenheit, as the bit pattern of a 32-bit float.
    pub temp_f: u32,
}

/// One weather record, as the upstream provider reports it.
#[derive(Debug, PartialEq, Eq)]
pub struct WeatherResponse {
    pub location: Location,
    pub current: Current,
}

/// What a [`Location`] holds.
pub struct LocationView {
    pub name: Seq<char>,
    pub region: Seq<char>,
    pub country: Seq<char>,
    pub lat: u64,
    pub lon: u64,
    pub tz_id: Seq<char>,
    pub localtime_epoch: i64,
    pub localtime: Seq<char>,
}

/// What a [`Current`] holds.
pub struct CurrentView {
    pub last_updated_epoch: i64,
    pub last_updated: Seq<char>,
    pub temp_c: u32,
    pub temp_f: u32,
}

/// What a [`WeatherResponse`] holds.
pub struct WeatherView {
    pub location: LocationView,
    pub current: CurrentView,
}

impl View for Location {
    type V = LocationView;

    open spec fn view(&self) -> LocationView {
        LocationView {
            name: self.name@,
            region: self.region@,
            country: self.country@,
            lat: self.lat,
            lon: self.lon,
            tz_id: self.tz_id@,
            localtime_epoch: self.localtime_epoch,
            localtime: self.localtime@,
        }
    }
}

impl View for Current {
    type V = CurrentView;

    open spec fn view(&self) -> CurrentView {
        CurrentView {
            last_updated_epoch: self.last_updated_epoch,
            last_updated: self.last_updated@,
            temp_c: self.temp_c,
            temp_f: self.temp_f,
        }
    }
}

impl View for WeatherResponse {
    type V = WeatherView;

    open spec fn view(&self) -> WeatherView {
        WeatherView { location: self.location@, current: self.current@ }
    }
}

impl Clone for Location {
    fn clone(&self) -> (copy: Self)
        ensures
            copy@ == self@,
    {
        Location {
            name: self.name.clone(),
            region: self.region.clone(),
            country: self.country.clone(),
            lat: self.lat,
            lon: self.lon,
            tz_id: self.tz_id.clone(),
            localtime_epoch: self.localtime_epoch,
            localtime: self.localtime.clone(),
        }
    }
}

impl Clone for Current {
    fn clone(&self) -> (copy: Self)
        ensures
            copy@ == self@,
    {
        Current {
            last_updated_epoch: self.last_updated_epoch,
            last_updated: self.last_updated.clone(),
            temp_c: self.temp_c,
            temp_f: self.temp_f,
        }
    }
}

impl Clone for WeatherResponse {
    fn clone(&self) -> (copy: Self)
        ensures
            copy@ == self@,
    {
        WeatherResponse { location: self.location.clone(), current: self.current.clone() }
    }
}

} // verus!
