//! Kinds of classes, with their display name, glyph and terminal colour.

use vstd::prelude::*;

verus! {

#[derive(Debug, Clone, Copy, PartialEq, Eq, Structural)]
pub enum ClassType {
    Lecture,
    Lab,
    Exercise,
    Seminar,
    PE,
    Languages,
    Project,
}

/// Terminal colours used to tell kinds of classes apart.
#[derive(Debug, Clone, Copy, PartialEq, Eq, Structural)]
pub enum BasicColor {
    Red,
    Yellow,
    Magenta,
    Cyan,
    White,
    BrightRed,
    BrightGreen,
}

impl ClassType {
    pub open spec fn spec_name(self) -> Seq<char> {
        match self {
            ClassType::Lecture => "Wykład"@,
            ClassType::Lab => "Laboratorium"@,
            ClassType::Exercise => "Ćwiczenia"@,
            ClassType::Seminar => "Seminarium"@,
            ClassType::PE => "Wychowanie Fizyczne"@,
            ClassType::Languages => "Lektorat"@,
            ClassType::Project => "Projekt"@,
        }
    }

    pub open spec fn spec_emoji(self) -> Seq<char> {
        match self {
            ClassType::Lecture => "📚"@,
            ClassType::Lab => "🧪"@,
            ClassType::Exercise => "🏋️"@,
            ClassType::Seminar => "📝"@,
            ClassType::PE => "🏃"@,
            ClassType::Languages => "🗣️"@,
            ClassType::Project => "🛠️"@,
        }
    }

    pub open spec fn spec_color(self) -> BasicColor {
        match self {
            ClassType::Lecture => BasicColor::Magenta,
            ClassType::Lab => BasicColor::BrightGreen,
            ClassType::Exercise => BasicColor::BrightRed,
            ClassType::Seminar => BasicColor::Yellow,
            ClassType::PE => BasicColor::Red,
            ClassType::Languages => BasicColor::Cyan,
            ClassType::Project => BasicColor::White,
        }
    }

    /// The display name of the kind of class.
    pub fn to_name(self) -> (r: &'static str)
        ensures
            r@ == self.spec_name(),
    {
        match self {
            ClassType::Lecture => "Wykład",
            ClassType::Lab => "Laboratorium",
            ClassType::Exercise => "Ćwiczenia",
            ClassType::Seminar => "Seminarium",
            ClassType::PE => "Wychowanie Fizyczne",
            ClassType::Languages => "Lektorat",
            ClassType::Project => "Projekt",
        }
    }

    /// The glyph shown before a class of this kind.
    pub fn to_emoji(self) -> (r: &'static str)
        ensures
            r@ == self.spec_emoji(),
    {
        match self {
            ClassType::Lecture => "📚",
            ClassType::Lab => "🧪",
            ClassType::Exercise => "🏋️",
            ClassType::Seminar => "📝",
            ClassType::PE => "🏃",
            ClassType::Languages => "🗣️",
            ClassType::Project => "🛠️",
        }
    }

    /// The colour a class of this kind is shown in.
    pub fn to_color(self) -> (r: BasicColor)
        ensures
            r == self.spec_color(),
    {
        match self {
            ClassType::Lecture => BasicColor::Magenta,
            ClassType::Lab => BasicColor::BrightGreen,
            ClassType::Exercise => BasicColor::BrightRed,
            ClassType::Seminar => BasicColor::Yellow,
            ClassType::PE => BasicColor::Red,
            ClassType::Languages => BasicColor::Cyan,
            ClassType::Project => BasicColor::White,
        }
    }
}

} // verus!
