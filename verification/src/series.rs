//! A TV series, in the form in which it is handed to bindings of other
//! languages.

use vstd::prelude::*;
use vstd::string::to_string_from_display_ensures_for_str;

verus! {

/// Representation of a TV series.
pub struct Series {
    /// The name of the series.
    name: String,
    /// The total number of seasons for the series.
    pub seasons: u8,
}

/// What a [`Series`] says: the characters of its name and the number of its
/// seasons.
pub struct SeriesView {
    pub name: Seq<char>,
    pub seasons: u8,
}

impl View for Series {
    type V = SeriesView;

    closed spec fn view(&self) -> SeriesView {
        SeriesView { name: self.name@, seasons: self.seasons }
    }
}

impl Series {
    /// A series with the given name and number of seasons.
    pub fn new(name: String, seasons: u8) -> (series: Self)
        ensures
            series@ == (SeriesView { name: name@, seasons }),
    {
        Self { name, seasons }
    }

    /// Produces a `Series` for OK K.O.!
    pub fn ok_ko() -> (series: Self)
        ensures
            series@ == (SeriesView { name: "OK K.O.! Let's Be Heroes"@, seasons: 3 }),
    {
        broadcast use to_string_from_display_ensures_for_str;

        Self { name: "OK K.O.! Let's Be Heroes".to_string(), seasons: 3 }
    }

    /// The name of the series.
    pub fn name(&self) -> (name: String)
        ensures
            name@ == self@.name,
    {
        self.name.clone()
    }
}

} // verus!
