//! A sender: the named, coloured, described identity a message comes from.

use vstd::prelude::*;
use crate::system::colour::Colour;

verus! {

/// The one production sender shape.
#[derive(PartialEq, Clone, Debug)]
pub struct PSender {
    name: String,
    description: String,
    colour: Colour,
}

/// The mathematical content of a `PSender`.
pub ghost struct PSenderView {
    pub name: Seq<char>,
    pub description: Seq<char>,
    pub colour: Colour,
}

impl View for PSender {
    type V = PSenderView;

    closed spec fn view(&self) -> PSenderView {
        PSenderView {
            name: self.name@,
            description: self.description@,
            colour: self.colour,
        }
    }
}

impl PSender {
    pub fn new(name: &str, description: &str, colour: Colour) -> (s: Self)
        ensures
            s@.name == name@,
            s@.description == description@,
            s@.colour == colour,
    {
        Self { name: name.to_owned(), description: description.to_owned(), colour }
    }

    pub fn name(&self) -> (r: &str)
        ensures
            r@ == self@.name,
    {
        self.name.as_str()
    }

    /// Replace the sender's name.
    pub fn update_name(&mut self, name: String)
        ensures
            final(self)@ == (PSenderView { name: name@, ..old(self)@ }),
    {
        self.name = name;
    }

    pub fn colour(&self) -> (r: &Colour)
        ensures
            *r == self@.colour,
    {
        &self.colour
    }

    /// Replace the sender's colour.
    pub fn update_colour(&mut self, colour: Colour)
        ensures
            final(self)@ == (PSenderView { colour, ..old(self)@ }),
    {
        self.colour = colour;
    }

    pub fn description(&self) -> (r: &str)
        ensures
            r@ == self@.description,
    {
        self.description.as_str()
    }

    /// Replace the sender's description.
    pub fn update_description(&mut self, description: String)
        ensures
            final(self)@ == (PSenderView { description: description@, ..old(self)@ }),
    {
        self.description = description;
    }
}

} // verus!
