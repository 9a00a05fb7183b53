use vstd::prelude::*;

verus! {

/// A colour as red, green and blue channels.
#[derive(Clone, Copy, Debug, PartialEq, Eq, Structural)]
pub struct Rgb {
    pub r: u8,
    pub g: u8,
    pub b: u8,
}

pub open spec fn rgb(r: u8, g: u8, b: u8) -> Rgb {
    Rgb { r, g, b }
}

/// The looks a button can take.
#[derive(Clone, Copy, Debug, PartialEq, Eq, Structural)]
pub enum Button {
    Primary,
    Disabled,
    Negative,
    Navigation,
}

impl Button {
    /// Fill colour of the button.
    pub fn background(&self) -> (c: Rgb)
        ensures
            *self == Button::Primary ==> c == rgb(28, 107, 223),
            *self == Button::Disabled ==> c == rgb(169, 169, 169),
            *self == Button::Negative ==> c == rgb(255, 0, 0),
            *self == Button::Navigation ==> c == rgb(136, 0, 219),
    {
        match self {
            Button::Primary => Rgb { r: 28, g: 107, b: 223 },
            Button::Disabled => Rgb { r: 169, g: 169, b: 169 },
            Button::Negative => Rgb { r: 255, g: 0, b: 0 },
            Button::Navigation => Rgb { r: 136, g: 0, b: 219 },
        }
    }

    /// Label colour: light grey at rest, white under the pointer.
    pub fn text_color(&self, hovered: bool) -> (c: Rgb)
        ensures
            hovered ==> c == rgb(255, 255, 255),
            !hovered ==> c == rgb(0xEE, 0xEE, 0xEE),
    {
        if hovered {
            Rgb { r: 255, g: 255, b: 255 }
        } else {
            Rgb { r: 0xEE, g: 0xEE, b: 0xEE }
        }
    }

    pub fn border_radius(&self) -> (r: u16)
        ensures
            r == 4,
    {
        4
    }
}

/// The looks of the boxes that make up a result log.
#[derive(Clone, Copy, Debug, PartialEq, Eq, Structural)]
pub enum Container {
    GameListEntry,
    GameListEntryTitle,
    GameListEntryBody,
}

impl Container {
    /// Only an entry's title has a fill.
    pub fn background(&self) -> (c: Option<Rgb>)
        ensures
            *self == Container::GameListEntryTitle ==> c == Some(rgb(230, 230, 230)),
            *self != Container::GameListEntryTitle ==> c is None,
    {
        match self {
            Container::GameListEntryTitle => Some(Rgb { r: 230, g: 230, b: 230 }),
            _ => None,
        }
    }

    pub fn border_color(&self) -> (c: Rgb)
        ensures
            *self == Container::GameListEntry ==> c == rgb(230, 230, 230),
            *self != Container::GameListEntry ==> c == rgb(0, 0, 0),
    {
        match self {
            Container::GameListEntry => Rgb { r: 230, g: 230, b: 230 },
            _ => Rgb { r: 0, g: 0, b: 0 },
        }
    }

    /// Only a whole entry has a border.
    pub fn border_width(&self) -> (w: u16)
        ensures
            *self == Container::GameListEntry ==> w == 1,
            *self != Container::GameListEntry ==> w == 0,
    {
        match self {
            Container::GameListEntry => 1,
            _ => 0,
        }
    }

    /// An entry and its title have rounded corners; the body does not.
    pub fn border_radius(&self) -> (r: u16)
        ensures
            *self == Container::GameListEntryBody ==> r == 0,
            *self != Container::GameListEntryBody ==> r == 10,
    {
        match self {
            Container::GameListEntry | Container::GameListEntryTitle => 10,
            _ => 0,
        }
    }
}

} // verus!
