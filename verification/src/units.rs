//! Units of measure and type specifiers: the two word tables of UIS.

use vstd::prelude::*;
use crate::text::str_eq;

verus! {

/// A unit of measure that may follow a number literal.
#[derive(Clone, Copy, Debug, PartialEq, Eq, Structural, Hash)]
pub enum Unit {
    // Length
    Yoctometer,
    Zeptometer,
    Attometer,
    Femtometer,
    Picometer,
    Nanometer,
    Micrometer,
    Millimeter,
    Centimeter,
    Decimeter,
    Meter,
    Decameter,
    Hectometer,
    Kilometer,
    Megameter,
    Gigameter,
    Terameter,
    Petameter,
    Exameter,
    Zettameter,
    Yottameter,
    Inch,
    Foot,
    Yard,
    Mile,
    // Time
    Yoctosecond,
    Zeptosecond,
    Attosecond,
    Femtosecond,
    Picosecond,
    Nanosecond,
    Microsecond,
    Millisecond,
    Second,
    Minute,
    Hour,
    Day,
    Week,
    Year,
    Decade,
    // Mass
    Yoctogram,
    Zeptogram,
    Attogram,
    Femtogram,
    Picogram,
    Nanogram,
    Microgram,
    Milligram,
    Gram,
    Kilogram,
    Megagram,
    Gigagram,
    Tonne,
    Ounce,
    Pound,
    Stone,
    ShortTon,
    LongTon,
    // Electric current
    Yoctoampere,
    Zeptoampere,
    Attoampere,
    Femtoampere,
    Picoampere,
    Nanoampere,
    Microampere,
    Milliampere,
    Ampere,
    Kiloampere,
    Megaampere,
    // Temperature
    Kelvin,
    Celsius,
    Fahrenheit,
    // Amount of substance
    Mole,
    // Luminous intensity
    Candela,
    // Volume
    Yoctoliter,
    Zeptoliter,
    Attoliter,
    Femtoliter,
    Picoliter,
    Nanoliter,
    Microliter,
    Milliliter,
    Liter,
    Kiloliter,
    Megaliter,
    FluidOunce,
    Pint,
    Quart,
    Gallon,
    // Common additions
    Percent,
    Pixel,
    Pi,
    // Derived SI units
    Hertz,
    Newton,
    Pascal,
    Joule,
    Watt,
    Coulomb,
    Volt,
    Farad,
    Ohm,
    Siemens,
    Weber,
    Tesla,
    Henry,
    Lumen,
    Lux,
    Becquerel,
    Gray,
    Sievert,
    Katal,
}

/// The unit that a written unit name denotes, if any. Each unit accepts its
/// symbol and its spelled-out names; the lookup is case sensitive.
pub open spec fn unit_of(s: Seq<char>) -> Option<Unit> {
    if s == "ym"@ || s == "yoctometer"@ || s == "yoctometers"@ {
        Some(Unit::Yoctometer)
    } else if s == "zm"@ || s == "zeptometer"@ || s == "zeptometers"@ {
        Some(Unit::Zeptometer)
    } else if s == "am"@ || s == "attometer"@ || s == "attometers"@ {
        Some(Unit::Attometer)
    } else if s == "fm"@ || s == "femtometer"@ || s == "femtometers"@ {
        Some(Unit::Femtometer)
    } else if s == "pm"@ || s == "picometer"@ || s == "picometers"@ {
        Some(Unit::Picometer)
    } else if s == "nm"@ || s == "nanometer"@ || s == "nanometers"@ {
        Some(Unit::Nanometer)
    } else if s == "µm"@ || s == "um"@ || s == "micrometer"@ || s == "micrometers"@ {
        Some(Unit::Micrometer)
    } else if s == "mm"@ || s == "millimeter"@ || s == "millimeters"@ {
        Some(Unit::Millimeter)
    } else if s == "cm"@ || s == "centimeter"@ || s == "centimeters"@ {
        Some(Unit::Centimeter)
    } else if s == "dm"@ || s == "decimeter"@ || s == "decimeters"@ {
        Some(Unit::Decimeter)
    } else if s == "m"@ || s == "meter"@ || s == "meters"@ {
        Some(Unit::Meter)
    } else if s == "dam"@ || s == "decameter"@ || s == "decameters"@ {
        Some(Unit::Decameter)
    } else if s == "hm"@ || s == "hectometer"@ || s == "hectometers"@ {
        Some(Unit::Hectometer)
    } else if s == "km"@ || s == "kilometer"@ || s == "kilometers"@ {
        Some(Unit::Kilometer)
    } else if s == "Mm"@ || s == "megameter"@ || s == "megameters"@ {
        Some(Unit::Megameter)
    } else if s == "Gm"@ || s == "gigameter"@ || s == "gigameters"@ {
        Some(Unit::Gigameter)
    } else if s == "Tm"@ || s == "terameter"@ || s == "terameters"@ {
        Some(Unit::Terameter)
    } else if s == "Pm"@ || s == "petameter"@ || s == "petameters"@ {
        Some(Unit::Petameter)
    } else if s == "Em"@ || s == "exameter"@ || s == "exameters"@ {
        Some(Unit::Exameter)
    } else if s == "Zm"@ || s == "zettameter"@ || s == "zettameters"@ {
        Some(Unit::Zettameter)
    } else if s == "Ym"@ || s == "yottameter"@ || s == "yottameters"@ {
        Some(Unit::Yottameter)
    } else if s == "in"@ || s == "inch"@ || s == "inches"@ {
        Some(Unit::Inch)
    } else if s == "ft"@ || s == "foot"@ || s == "feet"@ {
        Some(Unit::Foot)
    } else if s == "yd"@ || s == "yard"@ || s == "yards"@ {
        Some(Unit::Yard)
    } else if s == "mi"@ || s == "mile"@ || s == "miles"@ {
        Some(Unit::Mile)
    } else if s == "ys"@ || s == "yoctosecond"@ {
        Some(Unit::Yoctosecond)
    } else if s == "zs"@ || s == "zeptosecond"@ {
        Some(Unit::Zeptosecond)
    } else if s == "as"@ || s == "attosecond"@ {
        Some(Unit::Attosecond)
    } else if s == "fs"@ || s == "femtosecond"@ {
        Some(Unit::Femtosecond)
    } else if s == "ps"@ || s == "picosecond"@ {
        Some(Unit::Picosecond)
    } else if s == "ns"@ || s == "nanosecond"@ {
        Some(Unit::Nanosecond)
    } else if s == "µs"@ || s == "us"@ || s == "microsecond"@ {
        Some(Unit::Microsecond)
    } else if s == "ms"@ || s == "millisecond"@ {
        Some(Unit::Millisecond)
    } else if s == "s"@ || s == "sec"@ || s == "second"@ || s == "seconds"@ {
        Some(Unit::Second)
    } else if s == "min"@ || s == "minute"@ || s == "minutes"@ {
        Some(Unit::Minute)
    } else if s == "h"@ || s == "hr"@ || s == "hour"@ || s == "hours"@ {
        Some(Unit::Hour)
    } else if s == "d"@ || s == "day"@ || s == "days"@ {
        Some(Unit::Day)
    } else if s == "wk"@ || s == "week"@ || s == "weeks"@ {
        Some(Unit::Week)
    } else if s == "yr"@ || s == "year"@ || s == "years"@ {
        Some(Unit::Year)
    } else if s == "decade"@ || s == "decades"@ {
        Some(Unit::Decade)
    } else if s == "g"@ || s == "gram"@ || s == "grams"@ {
        Some(Unit::Gram)
    } else if s == "kg"@ || s == "kilogram"@ || s == "kilograms"@ {
        Some(Unit::Kilogram)
    } else if s == "mg"@ || s == "milligram"@ || s == "milligrams"@ {
        Some(Unit::Milligram)
    } else if s == "µg"@ || s == "ug"@ || s == "microgram"@ {
        Some(Unit::Microgram)
    } else if s == "t"@ || s == "tonne"@ || s == "tonnes"@ {
        Some(Unit::Tonne)
    } else if s == "oz"@ || s == "ounce"@ || s == "ounces"@ {
        Some(Unit::Ounce)
    } else if s == "lb"@ || s == "lbs"@ || s == "pound"@ || s == "pounds"@ {
        Some(Unit::Pound)
    } else if s == "st"@ || s == "stone"@ || s == "stones"@ {
        Some(Unit::Stone)
    } else if s == "shortton"@ || s == "short ton"@ {
        Some(Unit::ShortTon)
    } else if s == "longton"@ || s == "long ton"@ {
        Some(Unit::LongTon)
    } else if s == "k"@ || s == "kelvin"@ {
        Some(Unit::Kelvin)
    } else if s == "c"@ || s == "°c"@ || s == "celsius"@ {
        Some(Unit::Celsius)
    } else if s == "f"@ || s == "°f"@ || s == "fahrenheit"@ {
        Some(Unit::Fahrenheit)
    } else if s == "mol"@ || s == "mole"@ || s == "moles"@ {
        Some(Unit::Mole)
    } else if s == "cd"@ || s == "candela"@ {
        Some(Unit::Candela)
    } else if s == "%"@ || s == "pct"@ || s == "percent"@ {
        Some(Unit::Percent)
    } else if s == "px"@ || s == "pixel"@ || s == "pixels"@ {
        Some(Unit::Pixel)
    } else if s == "pi"@ || s == "π"@ {
        Some(Unit::Pi)
    } else if s == "hz"@ || s == "hertz"@ {
        Some(Unit::Hertz)
    } else if s == "n"@ || s == "newton"@ {
        Some(Unit::Newton)
    } else if s == "pa"@ || s == "pascal"@ {
        Some(Unit::Pascal)
    } else if s == "j"@ || s == "joule"@ {
        Some(Unit::Joule)
    } else if s == "w"@ || s == "watt"@ {
        Some(Unit::Watt)
    } else if s == "v"@ || s == "volt"@ {
        Some(Unit::Volt)
    } else if s == "ohm"@ || s == "Ω"@ {
        Some(Unit::Ohm)
    } else {
        None
    }
}

impl Unit {
    /// Reads a unit name.
    pub fn parse(input: &str) -> (r: Option<Unit>)
        ensures
            r == unit_of(input@),
    {
        if str_eq(input, "ym") || str_eq(input, "yoctometer") || str_eq(input, "yoctometers") {
            Some(Unit::Yoctometer)
        } else if str_eq(input, "zm") || str_eq(input, "zeptometer") || str_eq(input, "zeptometers") {
            Some(Unit::Zeptometer)
        } else if str_eq(input, "am") || str_eq(input, "attometer") || str_eq(input, "attometers") {
            Some(Unit::Attometer)
        } else if str_eq(input, "fm") || str_eq(input, "femtometer") || str_eq(input, "femtometers") {
            Some(Unit::Femtometer)
        } else if str_eq(input, "pm") || str_eq(input, "picometer") || str_eq(input, "picometers") {
            Some(Unit::Picometer)
        } else if str_eq(input, "nm") || str_eq(input, "nanometer") || str_eq(input, "nanometers") {
            Some(Unit::Nanometer)
        } else if str_eq(input, "µm") || str_eq(input, "um") || str_eq(input, "micrometer") || str_eq(input, "micrometers") {
            Some(Unit::Micrometer)
        } else if str_eq(input, "mm") || str_eq(input, "millimeter") || str_eq(input, "millimeters") {
            Some(Unit::Millimeter)
        } else if str_eq(input, "cm") || str_eq(input, "centimeter") || str_eq(input, "centimeters") {
            Some(Unit::Centimeter)
        } else if str_eq(input, "dm") || str_eq(input, "decimeter") || str_eq(input, "decimeters") {
            Some(Unit::Decimeter)
        } else if str_eq(input, "m") || str_eq(input, "meter") || str_eq(input, "meters") {
            Some(Unit::Meter)
        } else if str_eq(input, "dam") || str_eq(input, "decameter") || str_eq(input, "decameters") {
            Some(Unit::Decameter)
        } else if str_eq(input, "hm") || str_eq(input, "hectometer") || str_eq(input, "hectometers") {
            Some(Unit::Hectometer)
        } else if str_eq(input, "km") || str_eq(input, "kilometer") || str_eq(input, "kilometers") {
            Some(Unit::Kilometer)
        } else if str_eq(input, "Mm") || str_eq(input, "megameter") || str_eq(input, "megameters") {
            Some(Unit::Megameter)
        } else if str_eq(input, "Gm") || str_eq(input, "gigameter") || str_eq(input, "gigameters") {
            Some(Unit::Gigameter)
        } else if str_eq(input, "Tm") || str_eq(input, "terameter") || str_eq(input, "terameters") {
            Some(Unit::Terameter)
        } else if str_eq(input, "Pm") || str_eq(input, "petameter") || str_eq(input, "petameters") {
            Some(Unit::Petameter)
        } else if str_eq(input, "Em") || str_eq(input, "exameter") || str_eq(input, "exameters") {
            Some(Unit::Exameter)
        } else if str_eq(input, "Zm") || str_eq(input, "zettameter") || str_eq(input, "zettameters") {
            Some(Unit::Zettameter)
        } else if str_eq(input, "Ym") || str_eq(input, "yottameter") || str_eq(input, "yottameters") {
            Some(Unit::Yottameter)
        } else if str_eq(input, "in") || str_eq(input, "inch") || str_eq(input, "inches") {
            Some(Unit::Inch)
        } else if str_eq(input, "ft") || str_eq(input, "foot") || str_eq(input, "feet") {
            Some(Unit::Foot)
        } else if str_eq(input, "yd") || str_eq(input, "yard") || str_eq(input, "yards") {
            Some(Unit::Yard)
        } else if str_eq(input, "mi") || str_eq(input, "mile") || str_eq(input, "miles") {
            Some(Unit::Mile)
        } else if str_eq(input, "ys") || str_eq(input, "yoctosecond") {
            Some(Unit::Yoctosecond)
        } else if str_eq(input, "zs") || str_eq(input, "zeptosecond") {
            Some(Unit::Zeptosecond)
        } else if str_eq(input, "as") || str_eq(input, "attosecond") {
            Some(Unit::Attosecond)
        } else if str_eq(input, "fs") || str_eq(input, "femtosecond") {
            Some(Unit::Femtosecond)
        } else if str_eq(input, "ps") || str_eq(input, "picosecond") {
            Some(Unit::Picosecond)
        } else if str_eq(input, "ns") || str_eq(input, "nanosecond") {
            Some(Unit::Nanosecond)
        } else if str_eq(input, "µs") || str_eq(input, "us") || str_eq(input, "microsecond") {
            Some(Unit::Microsecond)
        } else if str_eq(input, "ms") || str_eq(input, "millisecond") {
            Some(Unit::Millisecond)
        } else if str_eq(input, "s") || str_eq(input, "sec") || str_eq(input, "second") || str_eq(input, "seconds") {
            Some(Unit::Second)
        } else if str_eq(input, "min") || str_eq(input, "minute") || str_eq(input, "minutes") {
            Some(Unit::Minute)
        } else if str_eq(input, "h") || str_eq(input, "hr") || str_eq(input, "hour") || str_eq(input, "hours") {
            Some(Unit::Hour)
        } else if str_eq(input, "d") || str_eq(input, "day") || str_eq(input, "days") {
            Some(Unit::Day)
        } else if str_eq(input, "wk") || str_eq(input, "week") || str_eq(input, "weeks") {
            Some(Unit::Week)
        } else if str_eq(input, "yr") || str_eq(input, "year") || str_eq(input, "years") {
            Some(Unit::Year)
        } else if str_eq(input, "decade") || str_eq(input, "decades") {
            Some(Unit::Decade)
        } else if str_eq(input, "g") || str_eq(input, "gram") || str_eq(input, "grams") {
            Some(Unit::Gram)
        } else if str_eq(input, "kg") || str_eq(input, "kilogram") || str_eq(input, "kilograms") {
            Some(Unit::Kilogram)
        } else if str_eq(input, "mg") || str_eq(input, "milligram") || str_eq(input, "milligrams") {
            Some(Unit::Milligram)
        } else if str_eq(input, "µg") || str_eq(input, "ug") || str_eq(input, "microgram") {
            Some(Unit::Microgram)
        } else if str_eq(input, "t") || str_eq(input, "tonne") || str_eq(input, "tonnes") {
            Some(Unit::Tonne)
        } else if str_eq(input, "oz") || str_eq(input, "ounce") || str_eq(input, "ounces") {
            Some(Unit::Ounce)
        } else if str_eq(input, "lb") || str_eq(input, "lbs") || str_eq(input, "pound") || str_eq(input, "pounds") {
            Some(Unit::Pound)
        } else if str_eq(input, "st") || str_eq(input, "stone") || str_eq(input, "stones") {
            Some(Unit::Stone)
        } else if str_eq(input, "shortton") || str_eq(input, "short ton") {
            Some(Unit::ShortTon)
        } else if str_eq(input, "longton") || str_eq(input, "long ton") {
            Some(Unit::LongTon)
        } else if str_eq(input, "k") || str_eq(input, "kelvin") {
            Some(Unit::Kelvin)
        } else if str_eq(input, "c") || str_eq(input, "°c") || str_eq(input, "celsius") {
            Some(Unit::Celsius)
        } else if str_eq(input, "f") || str_eq(input, "°f") || str_eq(input, "fahrenheit") {
            Some(Unit::Fahrenheit)
        } else if str_eq(input, "mol") || str_eq(input, "mole") || str_eq(input, "moles") {
            Some(Unit::Mole)
        } else if str_eq(input, "cd") || str_eq(input, "candela") {
            Some(Unit::Candela)
        } else if str_eq(input, "%") || str_eq(input, "pct") || str_eq(input, "percent") {
            Some(Unit::Percent)
        } else if str_eq(input, "px") || str_eq(input, "pixel") || str_eq(input, "pixels") {
            Some(Unit::Pixel)
        } else if str_eq(input, "pi") || str_eq(input, "π") {
            Some(Unit::Pi)
        } else if str_eq(input, "hz") || str_eq(input, "hertz") {
            Some(Unit::Hertz)
        } else if str_eq(input, "n") || str_eq(input, "newton") {
            Some(Unit::Newton)
        } else if str_eq(input, "pa") || str_eq(input, "pascal") {
            Some(Unit::Pascal)
        } else if str_eq(input, "j") || str_eq(input, "joule") {
            Some(Unit::Joule)
        } else if str_eq(input, "w") || str_eq(input, "watt") {
            Some(Unit::Watt)
        } else if str_eq(input, "v") || str_eq(input, "volt") {
            Some(Unit::Volt)
        } else if str_eq(input, "ohm") || str_eq(input, "Ω") {
            Some(Unit::Ohm)
        } else {
            None
        }
    }
}

/// A type specifier, written in capitals.
#[derive(Clone, Copy, Debug, PartialEq, Eq, Structural)]
pub enum Type {
    Number,
    NumberUnsigned,
    NumberSigned,
    NumberFloat,
    NumberU8,
    NumberU16,
    NumberU32,
    NumberU64,
    NumberI8,
    NumberI16,
    NumberI32,
    NumberI64,
    NumberF32,
    NumberF64,
    Text,
    Option,
    Color,
    ComponentReference,
    PropertyReference,
    Structure,
}

/// The type that a written type specifier denotes, if any.
pub open spec fn type_of(s: Seq<char>) -> Option<Type> {
    if s == "NUMBER"@ {
        Some(Type::Number)
    } else if s == "NUMBER.UNSIGNED"@ {
        Some(Type::NumberUnsigned)
    } else if s == "NUMBER.UNSIGNED.8"@ {
        Some(Type::NumberU8)
    } else if s == "NUMBER.UNSIGNED.16"@ {
        Some(Type::NumberU16)
    } else if s == "NUMBER.UNSIGNED.32"@ {
        Some(Type::NumberU32)
    } else if s == "NUMBER.UNSIGNED.64"@ {
        Some(Type::NumberU64)
    } else if s == "NUMBER.SIGNED"@ {
        Some(Type::NumberSigned)
    } else if s == "NUMBER.SIGNED.8"@ {
        Some(Type::NumberI8)
    } else if s == "NUMBER.SIGNED.16"@ {
        Some(Type::NumberI16)
    } else if s == "NUMBER.SIGNED.32"@ {
        Some(Type::NumberI32)
    } else if s == "NUMBER.SIGNED.64"@ {
        Some(Type::NumberI64)
    } else if s == "NUMBER.FLOATINGPOINT"@ {
        Some(Type::NumberFloat)
    } else if s == "NUMBER.FLOATINGPOINT.32"@ {
        Some(Type::NumberF32)
    } else if s == "NUMBER.FLOATINGPOINT.64"@ {
        Some(Type::NumberF64)
    } else if s == "TEXT"@ {
        Some(Type::Text)
    } else if s == "OPTION"@ {
        Some(Type::Option)
    } else if s == "COLOR"@ {
        Some(Type::Color)
    } else if s == "COMPONENT"@ {
        Some(Type::ComponentReference)
    } else if s == "PROPERTY"@ {
        Some(Type::PropertyReference)
    } else if s == "STRUCTURE"@ {
        Some(Type::Structure)
    } else {
        None
    }
}

impl Type {
    /// The type of an expression given by tokens: for now always a color.
    pub fn from_tokens(input: Vec<crate::token::Token>) -> (r: Type)
        ensures
            r == Type::Color,
    {
        Type::Color
    }

    /// Reads a type specifier.
    pub fn from_string(input: &str) -> (r: Option<Type>)
        ensures
            r == type_of(input@),
    {
        if str_eq(input, "NUMBER") {
            Some(Type::Number)
        } else if str_eq(input, "NUMBER.UNSIGNED") {
            Some(Type::NumberUnsigned)
        } else if str_eq(input, "NUMBER.UNSIGNED.8") {
            Some(Type::NumberU8)
        } else if str_eq(input, "NUMBER.UNSIGNED.16") {
            Some(Type::NumberU16)
        } else if str_eq(input, "NUMBER.UNSIGNED.32") {
            Some(Type::NumberU32)
        } else if str_eq(input, "NUMBER.UNSIGNED.64") {
            Some(Type::NumberU64)
        } else if str_eq(input, "NUMBER.SIGNED") {
            Some(Type::NumberSigned)
        } else if str_eq(input, "NUMBER.SIGNED.8") {
            Some(Type::NumberI8)
        } else if str_eq(input, "NUMBER.SIGNED.16") {
            Some(Type::NumberI16)
        } else if str_eq(input, "NUMBER.SIGNED.32") {
            Some(Type::NumberI32)
        } else if str_eq(input, "NUMBER.SIGNED.64") {
            Some(Type::NumberI64)
        } else if str_eq(input, "NUMBER.FLOATINGPOINT") {
            Some(Type::NumberFloat)
        } else if str_eq(input, "NUMBER.FLOATINGPOINT.32") {
            Some(Type::NumberF32)
        } else if str_eq(input, "NUMBER.FLOATINGPOINT.64") {
            Some(Type::NumberF64)
        } else if str_eq(input, "TEXT") {
            Some(Type::Text)
        } else if str_eq(input, "OPTION") {
            Some(Type::Option)
        } else if str_eq(input, "COLOR") {
            Some(Type::Color)
        } else if str_eq(input, "COMPONENT") {
            Some(Type::ComponentReference)
        } else if str_eq(input, "PROPERTY") {
            Some(Type::PropertyReference)
        } else if str_eq(input, "STRUCTURE") {
            Some(Type::Structure)
        } else {
            None
        }
    }
}

/// Every spelling the unit table accepts for a unit: its symbol first, then
/// its other spellings.
pub open spec fn unit_names(u: Unit) -> Seq<Seq<char>> {
    match u {
        Unit::Yoctometer => seq!["ym"@, "yoctometer"@, "yoctometers"@],
        Unit::Zeptometer => seq!["zm"@, "zeptometer"@, "zeptometers"@],
        Unit::Attometer => seq!["am"@, "attometer"@, "attometers"@],
        Unit::Femtometer => seq!["fm"@, "femtometer"@, "femtometers"@],
        Unit::Picometer => seq!["pm"@, "picometer"@, "picometers"@],
        Unit::Nanometer => seq!["nm"@, "nanometer"@, "nanometers"@],
        Unit::Micrometer => seq!["µm"@, "um"@, "micrometer"@, "micrometers"@],
        Unit::Millimeter => seq!["mm"@, "millimeter"@, "millimeters"@],
        Unit::Centimeter => seq!["cm"@, "centimeter"@, "centimeters"@],
        Unit::Decimeter => seq!["dm"@, "decimeter"@, "decimeters"@],
        Unit::Meter => seq!["m"@, "meter"@, "meters"@],
        Unit::Decameter => seq!["dam"@, "decameter"@, "decameters"@],
        Unit::Hectometer => seq!["hm"@, "hectometer"@, "hectometers"@],
        Unit::Kilometer => seq!["km"@, "kilometer"@, "kilometers"@],
        Unit::Megameter => seq!["Mm"@, "megameter"@, "megameters"@],
        Unit::Gigameter => seq!["Gm"@, "gigameter"@, "gigameters"@],
        Unit::Terameter => seq!["Tm"@, "terameter"@, "terameters"@],
        Unit::Petameter => seq!["Pm"@, "petameter"@, "petameters"@],
        Unit::Exameter => seq!["Em"@, "exameter"@, "exameters"@],
        Unit::Zettameter => seq!["Zm"@, "zettameter"@, "zettameters"@],
        Unit::Yottameter => seq!["Ym"@, "yottameter"@, "yottameters"@],
        Unit::Inch => seq!["in"@, "inch"@, "inches"@],
        Unit::Foot => seq!["ft"@, "foot"@, "feet"@],
        Unit::Yard => seq!["yd"@, "yard"@, "yards"@],
        Unit::Mile => seq!["mi"@, "mile"@, "miles"@],
        Unit::Yoctosecond => seq!["ys"@, "yoctosecond"@],
        Unit::Zeptosecond => seq!["zs"@, "zeptosecond"@],
        Unit::Attosecond => seq!["as"@, "attosecond"@],
        Unit::Femtosecond => seq!["fs"@, "femtosecond"@],
        Unit::Picosecond => seq!["ps"@, "picosecond"@],
        Unit::Nanosecond => seq!["ns"@, "nanosecond"@],
        Unit::Microsecond => seq!["µs"@, "us"@, "microsecond"@],
        Unit::Millisecond => seq!["ms"@, "millisecond"@],
        Unit::Second => seq!["s"@, "sec"@, "second"@, "seconds"@],
        Unit::Minute => seq!["min"@, "minute"@, "minutes"@],
        Unit::Hour => seq!["h"@, "hr"@, "hour"@, "hours"@],
        Unit::Day => seq!["d"@, "day"@, "days"@],
        Unit::Week => seq!["wk"@, "week"@, "weeks"@],
        Unit::Year => seq!["yr"@, "year"@, "years"@],
        Unit::Decade => seq!["decade"@, "decades"@],
        Unit::Gram => seq!["g"@, "gram"@, "grams"@],
        Unit::Kilogram => seq!["kg"@, "kilogram"@, "kilograms"@],
        Unit::Milligram => seq!["mg"@, "milligram"@, "milligrams"@],
        Unit::Microgram => seq!["µg"@, "ug"@, "microgram"@],
        Unit::Tonne => seq!["t"@, "tonne"@, "tonnes"@],
        Unit::Ounce => seq!["oz"@, "ounce"@, "ounces"@],
        Unit::Pound => seq!["lb"@, "lbs"@, "pound"@, "pounds"@],
        Unit::Stone => seq!["st"@, "stone"@, "stones"@],
        Unit::ShortTon => seq!["shortton"@, "short ton"@],
        Unit::LongTon => seq!["longton"@, "long ton"@],
        Unit::Kelvin => seq!["k"@, "kelvin"@],
        Unit::Celsius => seq!["c"@, "°c"@, "celsius"@],
        Unit::Fahrenheit => seq!["f"@, "°f"@, "fahrenheit"@],
        Unit::Mole => seq!["mol"@, "mole"@, "moles"@],
        Unit::Candela => seq!["cd"@, "candela"@],
        Unit::Percent => seq!["%"@, "pct"@, "percent"@],
        Unit::Pixel => seq!["px"@, "pixel"@, "pixels"@],
        Unit::Pi => seq!["pi"@, "π"@],
        Unit::Hertz => seq!["hz"@, "hertz"@],
        Unit::Newton => seq!["n"@, "newton"@],
        Unit::Pascal => seq!["pa"@, "pascal"@],
        Unit::Joule => seq!["j"@, "joule"@],
        Unit::Watt => seq!["w"@, "watt"@],
        Unit::Volt => seq!["v"@, "volt"@],
        Unit::Ohm => seq!["ohm"@, "Ω"@],
        _ => Seq::empty(),
    }
}

/// Each spelling of a unit reads back as that unit, so no spelling of one
/// unit gives another; in particular each unit's own symbol gives that unit.
#[verifier::spinoff_prover]
#[verifier::rlimit(100)]
pub proof fn unit_names_read_back(u: Unit, i: int)
    requires
        0 <= i < unit_names(u).len(),
    ensures
        unit_of(unit_names(u)[i]) == Some(u),
{
    reveal_strlit("ym");
    assert("ym"@.len() == 2 && "ym"@[0] == 'y' && "ym"@[1] == 'm');
    reveal_strlit("yoctometer");
    assert("yoctometer"@.len() == 10 && "yoctometer"@[0] == 'y' && "yoctometer"@[1] == 'o' && "yoctometer"@[2] == 'c' && "yoctometer"@[3] == 't' && "yoctometer"@[4] == 'o' && "yoctometer"@[5] == 'm' && "yoctometer"@[6] == 'e' && "yoctometer"@[7] == 't' && "yoctometer"@[8] == 'e' && "yoctometer"@[9] == 'r');
    reveal_strlit("yoctometers");
    assert("yoctometers"@.len() == 11 && "yoctometers"@[0] == 'y' && "yoctometers"@[1] == 'o' && "yoctometers"@[2] == 'c' && "yoctometers"@[3] == 't' && "yoctometers"@[4] == 'o' && "yoctometers"@[5] == 'm' && "yoctometers"@[6] == 'e' && "yoctometers"@[7] == 't' && "yoctometers"@[8] == 'e' && "yoctometers"@[9] == 'r' && "yoctometers"@[10] == 's');
    reveal_strlit("zm");
    assert("zm"@.len() == 2 && "zm"@[0] == 'z' && "zm"@[1] == 'm');
    reveal_strlit("zeptometer");
    assert("zeptometer"@.len() == 10 && "zeptometer"@[0] == 'z' && "zeptometer"@[1] == 'e' && "zeptometer"@[2] == 'p' && "zeptometer"@[3] == 't' && "zeptometer"@[4] == 'o' && "zeptometer"@[5] == 'm' && "zeptometer"@[6] == 'e' && "zeptometer"@[7] == 't' && "zeptometer"@[8] == 'e' && "zeptometer"@[9] == 'r');
    reveal_strlit("zeptometers");
    assert("zeptometers"@.len() == 11 && "zeptometers"@[0] == 'z' && "zeptometers"@[1] == 'e' && "zeptometers"@[2] == 'p' && "zeptometers"@[3] == 't' && "zeptometers"@[4] == 'o' && "zeptometers"@[5] == 'm' && "zeptometers"@[6] == 'e' && "zeptometers"@[7] == 't' && "zeptometers"@[8] == 'e' && "zeptometers"@[9] == 'r' && "zeptometers"@[10] == 's');
    reveal_strlit("am");
    assert("am"@.len() == 2 && "am"@[0] == 'a' && "am"@[1] == 'm');
    reveal_strlit("attometer");
    assert("attometer"@.len() == 9 && "attometer"@[0] == 'a' && "attometer"@[1] == 't' && "attometer"@[2] == 't' && "attometer"@[3] == 'o' && "attometer"@[4] == 'm' && "attometer"@[5] == 'e' && "attometer"@[6] == 't' && "attometer"@[7] == 'e' && "attometer"@[8] == 'r');
    reveal_strlit("attometers");
    assert("attometers"@.len() == 10 && "attometers"@[0] == 'a' && "attometers"@[1] == 't' && "attometers"@[2] == 't' && "attometers"@[3] == 'o' && "attometers"@[4] == 'm' && "attometers"@[5] == 'e' && "attometers"@[6] == 't' && "attometers"@[7] == 'e' && "attometers"@[8] == 'r' && "attometers"@[9] == 's');
    reveal_strlit("fm");
    assert("fm"@.len() == 2 && "fm"@[0] == 'f' && "fm"@[1] == 'm');
    reveal_strlit("femtometer");
    assert("femtometer"@.len() == 10 && "femtometer"@[0] == 'f' && "femtometer"@[1] == 'e' && "femtometer"@[2] == 'm' && "femtometer"@[3] == 't' && "femtometer"@[4] == 'o' && "femtometer"@[5] == 'm' && "femtometer"@[6] == 'e' && "femtometer"@[7] == 't' && "femtometer"@[8] == 'e' && "femtometer"@[9] == 'r');
    reveal_strlit("femtometers");
    assert("femtometers"@.len() == 11 && "femtometers"@[0] == 'f' && "femtometers"@[1] == 'e' && "femtometers"@[2] == 'm' && "femtometers"@[3] == 't' && "femtometers"@[4] == 'o' && "femtometers"@[5] == 'm' && "femtometers"@[6] == 'e' && "femtometers"@[7] == 't' && "femtometers"@[8] == 'e' && "femtometers"@[9] == 'r' && "femtometers"@[10] == 's');
    reveal_strlit("pm");
    assert("pm"@.len() == 2 && "pm"@[0] == 'p' && "pm"@[1] == 'm');
    reveal_strlit("picometer");
    assert("picometer"@.len() == 9 && "picometer"@[0] == 'p' && "picometer"@[1] == 'i' && "picometer"@[2] == 'c' && "picometer"@[3] == 'o' && "picometer"@[4] == 'm' && "picometer"@[5] == 'e' && "picometer"@[6] == 't' && "picometer"@[7] == 'e' && "picometer"@[8] == 'r');
    reveal_strlit("picometers");
    assert("picometers"@.len() == 10 && "picometers"@[0] == 'p' && "picometers"@[1] == 'i' && "picometers"@[2] == 'c' && "picometers"@[3] == 'o' && "picometers"@[4] == 'm' && "picometers"@[5] == 'e' && "picometers"@[6] == 't' && "picometers"@[7] == 'e' && "picometers"@[8] == 'r' && "picometers"@[9] == 's');
    reveal_strlit("nm");
    assert("nm"@.len() == 2 && "nm"@[0] == 'n' && "nm"@[1] == 'm');
    reveal_strlit("nanometer");
    assert("nanometer"@.len() == 9 && "nanometer"@[0] == 'n' && "nanometer"@[1] == 'a' && "nanometer"@[2] == 'n' && "nanometer"@[3] == 'o' && "nanometer"@[4] == 'm' && "nanometer"@[5] == 'e' && "nanometer"@[6] == 't' && "nanometer"@[7] == 'e' && "nanometer"@[8] == 'r');
    reveal_strlit("nanometers");
    assert("nanometers"@.len() == 10 && "nanometers"@[0] == 'n' && "nanometers"@[1] == 'a' && "nanometers"@[2] == 'n' && "nanometers"@[3] == 'o' && "nanometers"@[4] == 'm' && "nanometers"@[5] == 'e' && "nanometers"@[6] == 't' && "nanometers"@[7] == 'e' && "nanometers"@[8] == 'r' && "nanometers"@[9] == 's');
    reveal_strlit("µm");
    assert("µm"@.len() == 2 && "µm"@[0] == 'µ' && "µm"@[1] == 'm');
    reveal_strlit("um");
    assert("um"@.len() == 2 && "um"@[0] == 'u' && "um"@[1] == 'm');
    reveal_strlit("micrometer");
    assert("micrometer"@.len() == 10 && "micrometer"@[0] == 'm' && "micrometer"@[1] == 'i' && "micrometer"@[2] == 'c' && "micrometer"@[3] == 'r' && "micrometer"@[4] == 'o' && "micrometer"@[5] == 'm' && "micrometer"@[6] == 'e' && "micrometer"@[7] == 't' && "micrometer"@[8] == 'e' && "micrometer"@[9] == 'r');
    reveal_strlit("micrometers");
    assert("micrometers"@.len() == 11 && "micrometers"@[0] == 'm' && "micrometers"@[1] == 'i' && "micrometers"@[2] == 'c' && "micrometers"@[3] == 'r' && "micrometers"@[4] == 'o' && "micrometers"@[5] == 'm' && "micrometers"@[6] == 'e' && "micrometers"@[7] == 't' && "micrometers"@[8] == 'e' && "micrometers"@[9] == 'r' && "micrometers"@[10] == 's');
    reveal_strlit("mm");
    assert("mm"@.len() == 2 && "mm"@[0] == 'm' && "mm"@[1] == 'm');
    reveal_strlit("millimeter");
    assert("millimeter"@.len() == 10 && "millimeter"@[0] == 'm' && "millimeter"@[1] == 'i' && "millimeter"@[2] == 'l' && "millimeter"@[3] == 'l' && "millimeter"@[4] == 'i' && "millimeter"@[5] == 'm' && "millimeter"@[6] == 'e' && "millimeter"@[7] == 't' && "millimeter"@[8] == 'e' && "millimeter"@[9] == 'r');
    reveal_strlit("millimeters");
    assert("millimeters"@.len() == 11 && "millimeters"@[0] == 'm' && "millimeters"@[1] == 'i' && "millimeters"@[2] == 'l' && "millimeters"@[3] == 'l' && "millimeters"@[4] == 'i' && "millimeters"@[5] == 'm' && "millimeters"@[6] == 'e' && "millimeters"@[7] == 't' && "millimeters"@[8] == 'e' && "millimeters"@[9] == 'r' && "millimeters"@[10] == 's');
    reveal_strlit("cm");
    assert("cm"@.len() == 2 && "cm"@[0] == 'c' && "cm"@[1] == 'm');
    reveal_strlit("centimeter");
    assert("centimeter"@.len() == 10 && "centimeter"@[0] == 'c' && "centimeter"@[1] == 'e' && "centimeter"@[2] == 'n' && "centimeter"@[3] == 't' && "centimeter"@[4] == 'i' && "centimeter"@[5] == 'm' && "centimeter"@[6] == 'e' && "centimeter"@[7] == 't' && "centimeter"@[8] == 'e' && "centimeter"@[9] == 'r');
    reveal_strlit("centimeters");
    assert("centimeters"@.len() == 11 && "centimeters"@[0] == 'c' && "centimeters"@[1] == 'e' && "centimeters"@[2] == 'n' && "centimeters"@[3] == 't' && "centimeters"@[4] == 'i' && "centimeters"@[5] == 'm' && "centimeters"@[6] == 'e' && "centimeters"@[7] == 't' && "centimeters"@[8] == 'e' && "centimeters"@[9] == 'r' && "centimeters"@[10] == 's');
    reveal_strlit("dm");
    assert("dm"@.len() == 2 && "dm"@[0] == 'd' && "dm"@[1] == 'm');
    reveal_strlit("decimeter");
    assert("decimeter"@.len() == 9 && "decimeter"@[0] == 'd' && "decimeter"@[1] == 'e' && "decimeter"@[2] == 'c' && "decimeter"@[3] == 'i' && "decimeter"@[4] == 'm' && "decimeter"@[5] == 'e' && "decimeter"@[6] == 't' && "decimeter"@[7] == 'e' && "decimeter"@[8] == 'r');
    reveal_strlit("decimeters");
    assert("decimeters"@.len() == 10 && "decimeters"@[0] == 'd' && "decimeters"@[1] == 'e' && "decimeters"@[2] == 'c' && "decimeters"@[3] == 'i' && "decimeters"@[4] == 'm' && "decimeters"@[5] == 'e' && "decimeters"@[6] == 't' && "decimeters"@[7] == 'e' && "decimeters"@[8] == 'r' && "decimeters"@[9] == 's');
    reveal_strlit("m");
    assert("m"@.len() == 1 && "m"@[0] == 'm');
    reveal_strlit("meter");
    assert("meter"@.len() == 5 && "meter"@[0] == 'm' && "meter"@[1] == 'e' && "meter"@[2] == 't' && "meter"@[3] == 'e' && "meter"@[4] == 'r');
    reveal_strlit("meters");
    assert("meters"@.len() == 6 && "meters"@[0] == 'm' && "meters"@[1] == 'e' && "meters"@[2] == 't' && "meters"@[3] == 'e' && "meters"@[4] == 'r' && "meters"@[5] == 's');
    reveal_strlit("dam");
    assert("dam"@.len() == 3 && "dam"@[0] == 'd' && "dam"@[1] == 'a' && "dam"@[2] == 'm');
    reveal_strlit("decameter");
    assert("decameter"@.len() == 9 && "decameter"@[0] == 'd' && "decameter"@[1] == 'e' && "decameter"@[2] == 'c' && "decameter"@[3] == 'a' && "decameter"@[4] == 'm' && "decameter"@[5] == 'e' && "decameter"@[6] == 't' && "decameter"@[7] == 'e' && "decameter"@[8] == 'r');
    reveal_strlit("decameters");
    assert("decameters"@.len() == 10 && "decameters"@[0] == 'd' && "decameters"@[1] == 'e' && "decameters"@[2] == 'c' && "decameters"@[3] == 'a' && "decameters"@[4] == 'm' && "decameters"@[5] == 'e' && "decameters"@[6] == 't' && "decameters"@[7] == 'e' && "decameters"@[8] == 'r' && "decameters"@[9] == 's');
    reveal_strlit("hm");
    assert("hm"@.len() == 2 && "hm"@[0] == 'h' && "hm"@[1] == 'm');
    reveal_strlit("hectometer");
    assert("hectometer"@.len() == 10 && "hectometer"@[0] == 'h' && "hectometer"@[1] == 'e' && "hectometer"@[2] == 'c' && "hectometer"@[3] == 't' && "hectometer"@[4] == 'o' && "hectometer"@[5] == 'm' && "hectometer"@[6] == 'e' && "hectometer"@[7] == 't' && "hectometer"@[8] == 'e' && "hectometer"@[9] == 'r');
    reveal_strlit("hectometers");
    assert("hectometers"@.len() == 11 && "hectometers"@[0] == 'h' && "hectometers"@[1] == 'e' && "hectometers"@[2] == 'c' && "hectometers"@[3] == 't' && "hectometers"@[4] == 'o' && "hectometers"@[5] == 'm' && "hectometers"@[6] == 'e' && "hectometers"@[7] == 't' && "hectometers"@[8] == 'e' && "hectometers"@[9] == 'r' && "hectometers"@[10] == 's');
    reveal_strlit("km");
    assert("km"@.len() == 2 && "km"@[0] == 'k' && "km"@[1] == 'm');
    reveal_strlit("kilometer");
    assert("kilometer"@.len() == 9 && "kilometer"@[0] == 'k' && "kilometer"@[1] == 'i' && "kilometer"@[2] == 'l' && "kilometer"@[3] == 'o' && "kilometer"@[4] == 'm' && "kilometer"@[5] == 'e' && "kilometer"@[6] == 't' && "kilometer"@[7] == 'e' && "kilometer"@[8] == 'r');
    reveal_strlit("kilometers");
    assert("kilometers"@.len() == 10 && "kilometers"@[0] == 'k' && "kilometers"@[1] == 'i' && "kilometers"@[2] == 'l' && "kilometers"@[3] == 'o' && "kilometers"@[4] == 'm' && "kilometers"@[5] == 'e' && "kilometers"@[6] == 't' && "kilometers"@[7] == 'e' && "kilometers"@[8] == 'r' && "kilometers"@[9] == 's');
    reveal_strlit("Mm");
    assert("Mm"@.len() == 2 && "Mm"@[0] == 'M' && "Mm"@[1] == 'm');
    reveal_strlit("megameter");
    assert("megameter"@.len() == 9 && "megameter"@[0] == 'm' && "megameter"@[1] == 'e' && "megameter"@[2] == 'g' && "megameter"@[3] == 'a' && "megameter"@[4] == 'm' && "megameter"@[5] == 'e' && "megameter"@[6] == 't' && "megameter"@[7] == 'e' && "megameter"@[8] == 'r');
    reveal_strlit("megameters");
    assert("megameters"@.len() == 10 && "megameters"@[0] == 'm' && "megameters"@[1] == 'e' && "megameters"@[2] == 'g' && "megameters"@[3] == 'a' && "megameters"@[4] == 'm' && "megameters"@[5] == 'e' && "megameters"@[6] == 't' && "megameters"@[7] == 'e' && "megameters"@[8] == 'r' && "megameters"@[9] == 's');
    reveal_strlit("Gm");
    assert("Gm"@.len() == 2 && "Gm"@[0] == 'G' && "Gm"@[1] == 'm');
    reveal_strlit("gigameter");
    assert("gigameter"@.len() == 9 && "gigameter"@[0] == 'g' && "gigameter"@[1] == 'i' && "gigameter"@[2] == 'g' && "gigameter"@[3] == 'a' && "gigameter"@[4] == 'm' && "gigameter"@[5] == 'e' && "gigameter"@[6] == 't' && "gigameter"@[7] == 'e' && "gigameter"@[8] == 'r');
    reveal_strlit("gigameters");
    assert("gigameters"@.len() == 10 && "gigameters"@[0] == 'g' && "gigameters"@[1] == 'i' && "gigameters"@[2] == 'g' && "gigameters"@[3] == 'a' && "gigameters"@[4] == 'm' && "gigameters"@[5] == 'e' && "gigameters"@[6] == 't' && "gigameters"@[7] == 'e' && "gigameters"@[8] == 'r' && "gigameters"@[9] == 's');
    reveal_strlit("Tm");
    assert("Tm"@.len() == 2 && "Tm"@[0] == 'T' && "Tm"@[1] == 'm');
    reveal_strlit("terameter");
    assert("terameter"@.len() == 9 && "terameter"@[0] == 't' && "terameter"@[1] == 'e' && "terameter"@[2] == 'r' && "terameter"@[3] == 'a' && "terameter"@[4] == 'm' && "terameter"@[5] == 'e' && "terameter"@[6] == 't' && "terameter"@[7] == 'e' && "terameter"@[8] == 'r');
    reveal_strlit("terameters");
    assert("terameters"@.len() == 10 && "terameters"@[0] == 't' && "terameters"@[1] == 'e' && "terameters"@[2] == 'r' && "terameters"@[3] == 'a' && "terameters"@[4] == 'm' && "terameters"@[5] == 'e' && "terameters"@[6] == 't' && "terameters"@[7] == 'e' && "terameters"@[8] == 'r' && "terameters"@[9] == 's');
    reveal_strlit("Pm");
    assert("Pm"@.len() == 2 && "Pm"@[0] == 'P' && "Pm"@[1] == 'm');
    reveal_strlit("petameter");
    assert("petameter"@.len() == 9 && "petameter"@[0] == 'p' && "petameter"@[1] == 'e' && "petameter"@[2] == 't' && "petameter"@[3] == 'a' && "petameter"@[4] == 'm' && "petameter"@[5] == 'e' && "petameter"@[6] == 't' && "petameter"@[7] == 'e' && "petameter"@[8] == 'r');
    reveal_strlit("petameters");
    assert("petameters"@.len() == 10 && "petameters"@[0] == 'p' && "petameters"@[1] == 'e' && "petameters"@[2] == 't' && "petameters"@[3] == 'a' && "petameters"@[4] == 'm' && "petameters"@[5] == 'e' && "petameters"@[6] == 't' && "petameters"@[7] == 'e' && "petameters"@[8] == 'r' && "petameters"@[9] == 's');
    reveal_strlit("Em");
    assert("Em"@.len() == 2 && "Em"@[0] == 'E' && "Em"@[1] == 'm');
    reveal_strlit("exameter");
    assert("exameter"@.len() == 8 && "exameter"@[0] == 'e' && "exameter"@[1] == 'x' && "exameter"@[2] == 'a' && "exameter"@[3] == 'm' && "exameter"@[4] == 'e' && "exameter"@[5] == 't' && "exameter"@[6] == 'e' && "exameter"@[7] == 'r');
    reveal_strlit("exameters");
    assert("exameters"@.len() == 9 && "exameters"@[0] == 'e' && "exameters"@[1] == 'x' && "exameters"@[2] == 'a' && "exameters"@[3] == 'm' && "exameters"@[4] == 'e' && "exameters"@[5] == 't' && "exameters"@[6] == 'e' && "exameters"@[7] == 'r' && "exameters"@[8] == 's');
    reveal_strlit("Zm");
    assert("Zm"@.len() == 2 && "Zm"@[0] == 'Z' && "Zm"@[1] == 'm');
    reveal_strlit("zettameter");
    assert("zettameter"@.len() == 10 && "zettameter"@[0] == 'z' && "zettameter"@[1] == 'e' && "zettameter"@[2] == 't' && "zettameter"@[3] == 't' && "zettameter"@[4] == 'a' && "zettameter"@[5] == 'm' && "zettameter"@[6] == 'e' && "zettameter"@[7] == 't' && "zettameter"@[8] == 'e' && "zettameter"@[9] == 'r');
    reveal_strlit("zettameters");
    assert("zettameters"@.len() == 11 && "zettameters"@[0] == 'z' && "zettameters"@[1] == 'e' && "zettameters"@[2] == 't' && "zettameters"@[3] == 't' && "zettameters"@[4] == 'a' && "zettameters"@[5] == 'm' && "zettameters"@[6] == 'e' && "zettameters"@[7] == 't' && "zettameters"@[8] == 'e' && "zettameters"@[9] == 'r' && "zettameters"@[10] == 's');
    reveal_strlit("Ym");
    assert("Ym"@.len() == 2 && "Ym"@[0] == 'Y' && "Ym"@[1] == 'm');
    reveal_strlit("yottameter");
    assert("yottameter"@.len() == 10 && "yottameter"@[0] == 'y' && "yottameter"@[1] == 'o' && "yottameter"@[2] == 't' && "yottameter"@[3] == 't' && "yottameter"@[4] == 'a' && "yottameter"@[5] == 'm' && "yottameter"@[6] == 'e' && "yottameter"@[7] == 't' && "yottameter"@[8] == 'e' && "yottameter"@[9] == 'r');
    reveal_strlit("yottameters");
    assert("yottameters"@.len() == 11 && "yottameters"@[0] == 'y' && "yottameters"@[1] == 'o' && "yottameters"@[2] == 't' && "yottameters"@[3] == 't' && "yottameters"@[4] == 'a' && "yottameters"@[5] == 'm' && "yottameters"@[6] == 'e' && "yottameters"@[7] == 't' && "yottameters"@[8] == 'e' && "yottameters"@[9] == 'r' && "yottameters"@[10] == 's');
    reveal_strlit("in");
    assert("in"@.len() == 2 && "in"@[0] == 'i' && "in"@[1] == 'n');
    reveal_strlit("inch");
    assert("inch"@.len() == 4 && "inch"@[0] == 'i' && "inch"@[1] == 'n' && "inch"@[2] == 'c' && "inch"@[3] == 'h');
    reveal_strlit("inches");
    assert("inches"@.len() == 6 && "inches"@[0] == 'i' && "inches"@[1] == 'n' && "inches"@[2] == 'c' && "inches"@[3] == 'h' && "inches"@[4] == 'e' && "inches"@[5] == 's');
    reveal_strlit("ft");
    assert("ft"@.len() == 2 && "ft"@[0] == 'f' && "ft"@[1] == 't');
    reveal_strlit("foot");
    assert("foot"@.len() == 4 && "foot"@[0] == 'f' && "foot"@[1] == 'o' && "foot"@[2] == 'o' && "foot"@[3] == 't');
    reveal_strlit("feet");
    assert("feet"@.len() == 4 && "feet"@[0] == 'f' && "feet"@[1] == 'e' && "feet"@[2] == 'e' && "feet"@[3] == 't');
    reveal_strlit("yd");
    assert("yd"@.len() == 2 && "yd"@[0] == 'y' && "yd"@[1] == 'd');
    reveal_strlit("yard");
    assert("yard"@.len() == 4 && "yard"@[0] == 'y' && "yard"@[1] == 'a' && "yard"@[2] == 'r' && "yard"@[3] == 'd');
    reveal_strlit("yards");
    assert("yards"@.len() == 5 && "yards"@[0] == 'y' && "yards"@[1] == 'a' && "yards"@[2] == 'r' && "yards"@[3] == 'd' && "yards"@[4] == 's');
    reveal_strlit("mi");
    assert("mi"@.len() == 2 && "mi"@[0] == 'm' && "mi"@[1] == 'i');
    reveal_strlit("mile");
    assert("mile"@.len() == 4 && "mile"@[0] == 'm' && "mile"@[1] == 'i' && "mile"@[2] == 'l' && "mile"@[3] == 'e');
    reveal_strlit("miles");
    assert("miles"@.len() == 5 && "miles"@[0] == 'm' && "miles"@[1] == 'i' && "miles"@[2] == 'l' && "miles"@[3] == 'e' && "miles"@[4] == 's');
    reveal_strlit("ys");
    assert("ys"@.len() == 2 && "ys"@[0] == 'y' && "ys"@[1] == 's');
    reveal_strlit("yoctosecond");
    assert("yoctosecond"@.len() == 11 && "yoctosecond"@[0] == 'y' && "yoctosecond"@[1] == 'o' && "yoctosecond"@[2] == 'c' && "yoctosecond"@[3] == 't' && "yoctosecond"@[4] == 'o' && "yoctosecond"@[5] == 's' && "yoctosecond"@[6] == 'e' && "yoctosecond"@[7] == 'c' && "yoctosecond"@[8] == 'o' && "yoctosecond"@[9] == 'n' && "yoctosecond"@[10] == 'd');
    reveal_strlit("zs");
    assert("zs"@.len() == 2 && "zs"@[0] == 'z' && "zs"@[1] == 's');
    reveal_strlit("zeptosecond");
    assert("zeptosecond"@.len() == 11 && "zeptosecond"@[0] == 'z' && "zeptosecond"@[1] == 'e' && "zeptosecond"@[2] == 'p' && "zeptosecond"@[3] == 't' && "zeptosecond"@[4] == 'o' && "zeptosecond"@[5] == 's' && "zeptosecond"@[6] == 'e' && "zeptosecond"@[7] == 'c' && "zeptosecond"@[8] == 'o' && "zeptosecond"@[9] == 'n' && "zeptosecond"@[10] == 'd');
    reveal_strlit("as");
    assert("as"@.len() == 2 && "as"@[0] == 'a' && "as"@[1] == 's');
    reveal_strlit("attosecond");
    assert("attosecond"@.len() == 10 && "attosecond"@[0] == 'a' && "attosecond"@[1] == 't' && "attosecond"@[2] == 't' && "attosecond"@[3] == 'o' && "attosecond"@[4] == 's' && "attosecond"@[5] == 'e' && "attosecond"@[6] == 'c' && "attosecond"@[7] == 'o' && "attosecond"@[8] == 'n' && "attosecond"@[9] == 'd');
    reveal_strlit("fs");
    assert("fs"@.len() == 2 && "fs"@[0] == 'f' && "fs"@[1] == 's');
    reveal_strlit("femtosecond");
    assert("femtosecond"@.len() == 11 && "femtosecond"@[0] == 'f' && "femtosecond"@[1] == 'e' && "femtosecond"@[2] == 'm' && "femtosecond"@[3] == 't' && "femtosecond"@[4] == 'o' && "femtosecond"@[5] == 's' && "femtosecond"@[6] == 'e' && "femtosecond"@[7] == 'c' && "femtosecond"@[8] == 'o' && "femtosecond"@[9] == 'n' && "femtosecond"@[10] == 'd');
    reveal_strlit("ps");
    assert("ps"@.len() == 2 && "ps"@[0] == 'p' && "ps"@[1] == 's');
    reveal_strlit("picosecond");
    assert("picosecond"@.len() == 10 && "picosecond"@[0] == 'p' && "picosecond"@[1] == 'i' && "picosecond"@[2] == 'c' && "picosecond"@[3] == 'o' && "picosecond"@[4] == 's' && "picosecond"@[5] == 'e' && "picosecond"@[6] == 'c' && "picosecond"@[7] == 'o' && "picosecond"@[8] == 'n' && "picosecond"@[9] == 'd');
    reveal_strlit("ns");
    assert("ns"@.len() == 2 && "ns"@[0] == 'n' && "ns"@[1] == 's');
    reveal_strlit("nanosecond");
    assert("nanosecond"@.len() == 10 && "nanosecond"@[0] == 'n' && "nanosecond"@[1] == 'a' && "nanosecond"@[2] == 'n' && "nanosecond"@[3] == 'o' && "nanosecond"@[4] == 's' && "nanosecond"@[5] == 'e' && "nanosecond"@[6] == 'c' && "nanosecond"@[7] == 'o' && "nanosecond"@[8] == 'n' && "nanosecond"@[9] == 'd');
    reveal_strlit("µs");
    assert("µs"@.len() == 2 && "µs"@[0] == 'µ' && "µs"@[1] == 's');
    reveal_strlit("us");
    assert("us"@.len() == 2 && "us"@[0] == 'u' && "us"@[1] == 's');
    reveal_strlit("microsecond");
    assert("microsecond"@.len() == 11 && "microsecond"@[0] == 'm' && "microsecond"@[1] == 'i' && "microsecond"@[2] == 'c' && "microsecond"@[3] == 'r' && "microsecond"@[4] == 'o' && "microsecond"@[5] == 's' && "microsecond"@[6] == 'e' && "microsecond"@[7] == 'c' && "microsecond"@[8] == 'o' && "microsecond"@[9] == 'n' && "microsecond"@[10] == 'd');
    reveal_strlit("ms");
    assert("ms"@.len() == 2 && "ms"@[0] == 'm' && "ms"@[1] == 's');
    reveal_strlit("millisecond");
    assert("millisecond"@.len() == 11 && "millisecond"@[0] == 'm' && "millisecond"@[1] == 'i' && "millisecond"@[2] == 'l' && "millisecond"@[3] == 'l' && "millisecond"@[4] == 'i' && "millisecond"@[5] == 's' && "millisecond"@[6] == 'e' && "millisecond"@[7] == 'c' && "millisecond"@[8] == 'o' && "millisecond"@[9] == 'n' && "millisecond"@[10] == 'd');
    reveal_strlit("s");
    assert("s"@.len() == 1 && "s"@[0] == 's');
    reveal_strlit("sec");
    assert("sec"@.len() == 3 && "sec"@[0] == 's' && "sec"@[1] == 'e' && "sec"@[2] == 'c');
    reveal_strlit("second");
    assert("second"@.len() == 6 && "second"@[0] == 's' && "second"@[1] == 'e' && "second"@[2] == 'c' && "second"@[3] == 'o' && "second"@[4] == 'n' && "second"@[5] == 'd');
    reveal_strlit("seconds");
    assert("seconds"@.len() == 7 && "seconds"@[0] == 's' && "seconds"@[1] == 'e' && "seconds"@[2] == 'c' && "seconds"@[3] == 'o' && "seconds"@[4] == 'n' && "seconds"@[5] == 'd' && "seconds"@[6] == 's');
    reveal_strlit("min");
    assert("min"@.len() == 3 && "min"@[0] == 'm' && "min"@[1] == 'i' && "min"@[2] == 'n');
    reveal_strlit("minute");
    assert("minute"@.len() == 6 && "minute"@[0] == 'm' && "minute"@[1] == 'i' && "minute"@[2] == 'n' && "minute"@[3] == 'u' && "minute"@[4] == 't' && "minute"@[5] == 'e');
    reveal_strlit("minutes");
    assert("minutes"@.len() == 7 && "minutes"@[0] == 'm' && "minutes"@[1] == 'i' && "minutes"@[2] == 'n' && "minutes"@[3] == 'u' && "minutes"@[4] == 't' && "minutes"@[5] == 'e' && "minutes"@[6] == 's');
    reveal_strlit("h");
    assert("h"@.len() == 1 && "h"@[0] == 'h');
    reveal_strlit("hr");
    assert("hr"@.len() == 2 && "hr"@[0] == 'h' && "hr"@[1] == 'r');
    reveal_strlit("hour");
    assert("hour"@.len() == 4 && "hour"@[0] == 'h' && "hour"@[1] == 'o' && "hour"@[2] == 'u' && "hour"@[3] == 'r');
    reveal_strlit("hours");
    assert("hours"@.len() == 5 && "hours"@[0] == 'h' && "hours"@[1] == 'o' && "hours"@[2] == 'u' && "hours"@[3] == 'r' && "hours"@[4] == 's');
    reveal_strlit("d");
    assert("d"@.len() == 1 && "d"@[0] == 'd');
    reveal_strlit("day");
    assert("day"@.len() == 3 && "day"@[0] == 'd' && "day"@[1] == 'a' && "day"@[2] == 'y');
    reveal_strlit("days");
    assert("days"@.len() == 4 && "days"@[0] == 'd' && "days"@[1] == 'a' && "days"@[2] == 'y' && "days"@[3] == 's');
    reveal_strlit("wk");
    assert("wk"@.len() == 2 && "wk"@[0] == 'w' && "wk"@[1] == 'k');
    reveal_strlit("week");
    assert("week"@.len() == 4 && "week"@[0] == 'w' && "week"@[1] == 'e' && "week"@[2] == 'e' && "week"@[3] == 'k');
    reveal_strlit("weeks");
    assert("weeks"@.len() == 5 && "weeks"@[0] == 'w' && "weeks"@[1] == 'e' && "weeks"@[2] == 'e' && "weeks"@[3] == 'k' && "weeks"@[4] == 's');
    reveal_strlit("yr");
    assert("yr"@.len() == 2 && "yr"@[0] == 'y' && "yr"@[1] == 'r');
    reveal_strlit("year");
    assert("year"@.len() == 4 && "year"@[0] == 'y' && "year"@[1] == 'e' && "year"@[2] == 'a' && "year"@[3] == 'r');
    reveal_strlit("years");
    assert("years"@.len() == 5 && "years"@[0] == 'y' && "years"@[1] == 'e' && "years"@[2] == 'a' && "years"@[3] == 'r' && "years"@[4] == 's');
    reveal_strlit("decade");
    assert("decade"@.len() == 6 && "decade"@[0] == 'd' && "decade"@[1] == 'e' && "decade"@[2] == 'c' && "decade"@[3] == 'a' && "decade"@[4] == 'd' && "decade"@[5] == 'e');
    reveal_strlit("decades");
    assert("decades"@.len() == 7 && "decades"@[0] == 'd' && "decades"@[1] == 'e' && "decades"@[2] == 'c' && "decades"@[3] == 'a' && "decades"@[4] == 'd' && "decades"@[5] == 'e' && "decades"@[6] == 's');
    reveal_strlit("g");
    assert("g"@.len() == 1 && "g"@[0] == 'g');
    reveal_strlit("gram");
    assert("gram"@.len() == 4 && "gram"@[0] == 'g' && "gram"@[1] == 'r' && "gram"@[2] == 'a' && "gram"@[3] == 'm');
    reveal_strlit("grams");
    assert("grams"@.len() == 5 && "grams"@[0] == 'g' && "grams"@[1] == 'r' && "grams"@[2] == 'a' && "grams"@[3] == 'm' && "grams"@[4] == 's');
    reveal_strlit("kg");
    assert("kg"@.len() == 2 && "kg"@[0] == 'k' && "kg"@[1] == 'g');
    reveal_strlit("kilogram");
    assert("kilogram"@.len() == 8 && "kilogram"@[0] == 'k' && "kilogram"@[1] == 'i' && "kilogram"@[2] == 'l' && "kilogram"@[3] == 'o' && "kilogram"@[4] == 'g' && "kilogram"@[5] == 'r' && "kilogram"@[6] == 'a' && "kilogram"@[7] == 'm');
    reveal_strlit("kilograms");
    assert("kilograms"@.len() == 9 && "kilograms"@[0] == 'k' && "kilograms"@[1] == 'i' && "kilograms"@[2] == 'l' && "kilograms"@[3] == 'o' && "kilograms"@[4] == 'g' && "kilograms"@[5] == 'r' && "kilograms"@[6] == 'a' && "kilograms"@[7] == 'm' && "kilograms"@[8] == 's');
    reveal_strlit("mg");
    assert("mg"@.len() == 2 && "mg"@[0] == 'm' && "mg"@[1] == 'g');
    reveal_strlit("milligram");
    assert("milligram"@.len() == 9 && "milligram"@[0] == 'm' && "milligram"@[1] == 'i' && "milligram"@[2] == 'l' && "milligram"@[3] == 'l' && "milligram"@[4] == 'i' && "milligram"@[5] == 'g' && "milligram"@[6] == 'r' && "milligram"@[7] == 'a' && "milligram"@[8] == 'm');
    reveal_strlit("milligrams");
    assert("milligrams"@.len() == 10 && "milligrams"@[0] == 'm' && "milligrams"@[1] == 'i' && "milligrams"@[2] == 'l' && "milligrams"@[3] == 'l' && "milligrams"@[4] == 'i' && "milligrams"@[5] == 'g' && "milligrams"@[6] == 'r' && "milligrams"@[7] == 'a' && "milligrams"@[8] == 'm' && "milligrams"@[9] == 's');
    reveal_strlit("µg");
    assert("µg"@.len() == 2 && "µg"@[0] == 'µ' && "µg"@[1] == 'g');
    reveal_strlit("ug");
    assert("ug"@.len() == 2 && "ug"@[0] == 'u' && "ug"@[1] == 'g');
    reveal_strlit("microgram");
    assert("microgram"@.len() == 9 && "microgram"@[0] == 'm' && "microgram"@[1] == 'i' && "microgram"@[2] == 'c' && "microgram"@[3] == 'r' && "microgram"@[4] == 'o' && "microgram"@[5] == 'g' && "microgram"@[6] == 'r' && "microgram"@[7] == 'a' && "microgram"@[8] == 'm');
    reveal_strlit("t");
    assert("t"@.len() == 1 && "t"@[0] == 't');
    reveal_strlit("tonne");
    assert("tonne"@.len() == 5 && "tonne"@[0] == 't' && "tonne"@[1] == 'o' && "tonne"@[2] == 'n' && "tonne"@[3] == 'n' && "tonne"@[4] == 'e');
    reveal_strlit("tonnes");
    assert("tonnes"@.len() == 6 && "tonnes"@[0] == 't' && "tonnes"@[1] == 'o' && "tonnes"@[2] == 'n' && "tonnes"@[3] == 'n' && "tonnes"@[4] == 'e' && "tonnes"@[5] == 's');
    reveal_strlit("oz");
    assert("oz"@.len() == 2 && "oz"@[0] == 'o' && "oz"@[1] == 'z');
    reveal_strlit("ounce");
    assert("ounce"@.len() == 5 && "ounce"@[0] == 'o' && "ounce"@[1] == 'u' && "ounce"@[2] == 'n' && "ounce"@[3] == 'c' && "ounce"@[4] == 'e');
    reveal_strlit("ounces");
    assert("ounces"@.len() == 6 && "ounces"@[0] == 'o' && "ounces"@[1] == 'u' && "ounces"@[2] == 'n' && "ounces"@[3] == 'c' && "ounces"@[4] == 'e' && "ounces"@[5] == 's');
    reveal_strlit("lb");
    assert("lb"@.len() == 2 && "lb"@[0] == 'l' && "lb"@[1] == 'b');
    reveal_strlit("lbs");
    assert("lbs"@.len() == 3 && "lbs"@[0] == 'l' && "lbs"@[1] == 'b' && "lbs"@[2] == 's');
    reveal_strlit("pound");
    assert("pound"@.len() == 5 && "pound"@[0] == 'p' && "pound"@[1] == 'o' && "pound"@[2] == 'u' && "pound"@[3] == 'n' && "pound"@[4] == 'd');
    reveal_strlit("pounds");
    assert("pounds"@.len() == 6 && "pounds"@[0] == 'p' && "pounds"@[1] == 'o' && "pounds"@[2] == 'u' && "pounds"@[3] == 'n' && "pounds"@[4] == 'd' && "pounds"@[5] == 's');
    reveal_strlit("st");
    assert("st"@.len() == 2 && "st"@[0] == 's' && "st"@[1] == 't');
    reveal_strlit("stone");
    assert("stone"@.len() == 5 && "stone"@[0] == 's' && "stone"@[1] == 't' && "stone"@[2] == 'o' && "stone"@[3] == 'n' && "stone"@[4] == 'e');
    reveal_strlit("stones");
    assert("stones"@.len() == 6 && "stones"@[0] == 's' && "stones"@[1] == 't' && "stones"@[2] == 'o' && "stones"@[3] == 'n' && "stones"@[4] == 'e' && "stones"@[5] == 's');
    reveal_strlit("shortton");
    assert("shortton"@.len() == 8 && "shortton"@[0] == 's' && "shortton"@[1] == 'h' && "shortton"@[2] == 'o' && "shortton"@[3] == 'r' && "shortton"@[4] == 't' && "shortton"@[5] == 't' && "shortton"@[6] == 'o' && "shortton"@[7] == 'n');
    reveal_strlit("short ton");
    assert("short ton"@.len() == 9 && "short ton"@[0] == 's' && "short ton"@[1] == 'h' && "short ton"@[2] == 'o' && "short ton"@[3] == 'r' && "short ton"@[4] == 't' && "short ton"@[5] == ' ' && "short ton"@[6] == 't' && "short ton"@[7] == 'o' && "short ton"@[8] == 'n');
    reveal_strlit("longton");
    assert("longton"@.len() == 7 && "longton"@[0] == 'l' && "longton"@[1] == 'o' && "longton"@[2] == 'n' && "longton"@[3] == 'g' && "longton"@[4] == 't' && "longton"@[5] == 'o' && "longton"@[6] == 'n');
    reveal_strlit("long ton");
    assert("long ton"@.len() == 8 && "long ton"@[0] == 'l' && "long ton"@[1] == 'o' && "long ton"@[2] == 'n' && "long ton"@[3] == 'g' && "long ton"@[4] == ' ' && "long ton"@[5] == 't' && "long ton"@[6] == 'o' && "long ton"@[7] == 'n');
    reveal_strlit("k");
    assert("k"@.len() == 1 && "k"@[0] == 'k');
    reveal_strlit("kelvin");
    assert("kelvin"@.len() == 6 && "kelvin"@[0] == 'k' && "kelvin"@[1] == 'e' && "kelvin"@[2] == 'l' && "kelvin"@[3] == 'v' && "kelvin"@[4] == 'i' && "kelvin"@[5] == 'n');
    reveal_strlit("c");
    assert("c"@.len() == 1 && "c"@[0] == 'c');
    reveal_strlit("°c");
    assert("°c"@.len() == 2 && "°c"@[0] == '°' && "°c"@[1] == 'c');
    reveal_strlit("celsius");
    assert("celsius"@.len() == 7 && "celsius"@[0] == 'c' && "celsius"@[1] == 'e' && "celsius"@[2] == 'l' && "celsius"@[3] == 's' && "celsius"@[4] == 'i' && "celsius"@[5] == 'u' && "celsius"@[6] == 's');
    reveal_strlit("f");
    assert("f"@.len() == 1 && "f"@[0] == 'f');
    reveal_strlit("°f");
    assert("°f"@.len() == 2 && "°f"@[0] == '°' && "°f"@[1] == 'f');
    reveal_strlit("fahrenheit");
    assert("fahrenheit"@.len() == 10 && "fahrenheit"@[0] == 'f' && "fahrenheit"@[1] == 'a' && "fahrenheit"@[2] == 'h' && "fahrenheit"@[3] == 'r' && "fahrenheit"@[4] == 'e' && "fahrenheit"@[5] == 'n' && "fahrenheit"@[6] == 'h' && "fahrenheit"@[7] == 'e' && "fahrenheit"@[8] == 'i' && "fahrenheit"@[9] == 't');
    reveal_strlit("mol");
    assert("mol"@.len() == 3 && "mol"@[0] == 'm' && "mol"@[1] == 'o' && "mol"@[2] == 'l');
    reveal_strlit("mole");
    assert("mole"@.len() == 4 && "mole"@[0] == 'm' && "mole"@[1] == 'o' && "mole"@[2] == 'l' && "mole"@[3] == 'e');
    reveal_strlit("moles");
    assert("moles"@.len() == 5 && "moles"@[0] == 'm' && "moles"@[1] == 'o' && "moles"@[2] == 'l' && "moles"@[3] == 'e' && "moles"@[4] == 's');
    reveal_strlit("cd");
    assert("cd"@.len() == 2 && "cd"@[0] == 'c' && "cd"@[1] == 'd');
    reveal_strlit("candela");
    assert("candela"@.len() == 7 && "candela"@[0] == 'c' && "candela"@[1] == 'a' && "candela"@[2] == 'n' && "candela"@[3] == 'd' && "candela"@[4] == 'e' && "candela"@[5] == 'l' && "candela"@[6] == 'a');
    reveal_strlit("%");
    assert("%"@.len() == 1 && "%"@[0] == '%');
    reveal_strlit("pct");
    assert("pct"@.len() == 3 && "pct"@[0] == 'p' && "pct"@[1] == 'c' && "pct"@[2] == 't');
    reveal_strlit("percent");
    assert("percent"@.len() == 7 && "percent"@[0] == 'p' && "percent"@[1] == 'e' && "percent"@[2] == 'r' && "percent"@[3] == 'c' && "percent"@[4] == 'e' && "percent"@[5] == 'n' && "percent"@[6] == 't');
    reveal_strlit("px");
    assert("px"@.len() == 2 && "px"@[0] == 'p' && "px"@[1] == 'x');
    reveal_strlit("pixel");
    assert("pixel"@.len() == 5 && "pixel"@[0] == 'p' && "pixel"@[1] == 'i' && "pixel"@[2] == 'x' && "pixel"@[3] == 'e' && "pixel"@[4] == 'l');
    reveal_strlit("pixels");
    assert("pixels"@.len() == 6 && "pixels"@[0] == 'p' && "pixels"@[1] == 'i' && "pixels"@[2] == 'x' && "pixels"@[3] == 'e' && "pixels"@[4] == 'l' && "pixels"@[5] == 's');
    reveal_strlit("pi");
    assert("pi"@.len() == 2 && "pi"@[0] == 'p' && "pi"@[1] == 'i');
    reveal_strlit("π");
    assert("π"@.len() == 1 && "π"@[0] == 'π');
    reveal_strlit("hz");
    assert("hz"@.len() == 2 && "hz"@[0] == 'h' && "hz"@[1] == 'z');
    reveal_strlit("hertz");
    assert("hertz"@.len() == 5 && "hertz"@[0] == 'h' && "hertz"@[1] == 'e' && "hertz"@[2] == 'r' && "hertz"@[3] == 't' && "hertz"@[4] == 'z');
    reveal_strlit("n");
    assert("n"@.len() == 1 && "n"@[0] == 'n');
    reveal_strlit("newton");
    assert("newton"@.len() == 6 && "newton"@[0] == 'n' && "newton"@[1] == 'e' && "newton"@[2] == 'w' && "newton"@[3] == 't' && "newton"@[4] == 'o' && "newton"@[5] == 'n');
    reveal_strlit("pa");
    assert("pa"@.len() == 2 && "pa"@[0] == 'p' && "pa"@[1] == 'a');
    reveal_strlit("pascal");
    assert("pascal"@.len() == 6 && "pascal"@[0] == 'p' && "pascal"@[1] == 'a' && "pascal"@[2] == 's' && "pascal"@[3] == 'c' && "pascal"@[4] == 'a' && "pascal"@[5] == 'l');
    reveal_strlit("j");
    assert("j"@.len() == 1 && "j"@[0] == 'j');
    reveal_strlit("joule");
    assert("joule"@.len() == 5 && "joule"@[0] == 'j' && "joule"@[1] == 'o' && "joule"@[2] == 'u' && "joule"@[3] == 'l' && "joule"@[4] == 'e');
    reveal_strlit("w");
    assert("w"@.len() == 1 && "w"@[0] == 'w');
    reveal_strlit("watt");
    assert("watt"@.len() == 4 && "watt"@[0] == 'w' && "watt"@[1] == 'a' && "watt"@[2] == 't' && "watt"@[3] == 't');
    reveal_strlit("v");
    assert("v"@.len() == 1 && "v"@[0] == 'v');
    reveal_strlit("volt");
    assert("volt"@.len() == 4 && "volt"@[0] == 'v' && "volt"@[1] == 'o' && "volt"@[2] == 'l' && "volt"@[3] == 't');
    reveal_strlit("ohm");
    assert("ohm"@.len() == 3 && "ohm"@[0] == 'o' && "ohm"@[1] == 'h' && "ohm"@[2] == 'm');
    reveal_strlit("Ω");
    assert("Ω"@.len() == 1 && "Ω"@[0] == 'Ω');
    match u {
        Unit::Yoctometer => {
            if i == 0 {
                assert(unit_names(u)[i] == "ym"@);
            } else if i == 1 {
                assert(unit_names(u)[i] == "yoctometer"@);
            } else if i == 2 {
                assert(unit_names(u)[i] == "yoctometers"@);
            }
        },
        Unit::Zeptometer => {
            if i == 0 {
                assert(unit_names(u)[i] == "zm"@);
            } else if i == 1 {
                assert(unit_names(u)[i] == "zeptometer"@);
            } else if i == 2 {
                assert(unit_names(u)[i] == "zeptometers"@);
            }
        },
        Unit::Attometer => {
            if i == 0 {
                assert(unit_names(u)[i] == "am"@);
            } else if i == 1 {
                assert(unit_names(u)[i] == "attometer"@);
            } else if i == 2 {
                assert(unit_names(u)[i] == "attometers"@);
            }
        },
        Unit::Femtometer => {
            if i == 0 {
                assert(unit_names(u)[i] == "fm"@);
            } else if i == 1 {
                assert(unit_names(u)[i] == "femtometer"@);
            } else if i == 2 {
                assert(unit_names(u)[i] == "femtometers"@);
            }
        },
        Unit::Picometer => {
            if i == 0 {
                assert(unit_names(u)[i] == "pm"@);
            } else if i == 1 {
                assert(unit_names(u)[i] == "picometer"@);
            } else if i == 2 {
                assert(unit_names(u)[i] == "picometers"@);
            }
        },
        Unit::Nanometer => {
            if i == 0 {
                assert(unit_names(u)[i] == "nm"@);
            } else if i == 1 {
                assert(unit_names(u)[i] == "nanometer"@);
            } else if i == 2 {
                assert(unit_names(u)[i] == "nanometers"@);
            }
        },
        Unit::Micrometer => {
            if i == 0 {
                assert(unit_names(u)[i] == "µm"@);
            } else if i == 1 {
                assert(unit_names(u)[i] == "um"@);
            } else if i == 2 {
                assert(unit_names(u)[i] == "micrometer"@);
            } else if i == 3 {
                assert(unit_names(u)[i] == "micrometers"@);
            }
        },
        Unit::Millimeter => {
            if i == 0 {
                assert(unit_names(u)[i] == "mm"@);
            } else if i == 1 {
                assert(unit_names(u)[i] == "millimeter"@);
            } else if i == 2 {
                assert(unit_names(u)[i] == "millimeters"@);
            }
        },
        Unit::Centimeter => {
            if i == 0 {
                assert(unit_names(u)[i] == "cm"@);
            } else if i == 1 {
                assert(unit_names(u)[i] == "centimeter"@);
            } else if i == 2 {
                assert(unit_names(u)[i] == "centimeters"@);
            }
        },
        Unit::Decimeter => {
            if i == 0 {
                assert(unit_names(u)[i] == "dm"@);
            } else if i == 1 {
                assert(unit_names(u)[i] == "decimeter"@);
            } else if i == 2 {
                assert(unit_names(u)[i] == "decimeters"@);
            }
        },
        Unit::Meter => {
            if i == 0 {
                assert(unit_names(u)[i] == "m"@);
            } else if i == 1 {
                assert(unit_names(u)[i] == "meter"@);
            } else if i == 2 {
                assert(unit_names(u)[i] == "meters"@);
            }
        },
        Unit::Decameter => {
            if i == 0 {
                assert(unit_names(u)[i] == "dam"@);
            } else if i == 1 {
                assert(unit_names(u)[i] == "decameter"@);
            } else if i == 2 {
                assert(unit_names(u)[i] == "decameters"@);
            }
        },
        Unit::Hectometer => {
            if i == 0 {
                assert(unit_names(u)[i] == "hm"@);
            } else if i == 1 {
                assert(unit_names(u)[i] == "hectometer"@);
            } else if i == 2 {
                assert(unit_names(u)[i] == "hectometers"@);
            }
        },
        Unit::Kilometer => {
            if i == 0 {
                assert(unit_names(u)[i] == "km"@);
            } else if i == 1 {
                assert(unit_names(u)[i] == "kilometer"@);
            } else if i == 2 {
                assert(unit_names(u)[i] == "kilometers"@);
            }
        },
        Unit::Megameter => {
            if i == 0 {
                assert(unit_names(u)[i] == "Mm"@);
            } else if i == 1 {
                assert(unit_names(u)[i] == "megameter"@);
            } else if i == 2 {
                assert(unit_names(u)[i] == "megameters"@);
            }
        },
        Unit::Gigameter => {
            if i == 0 {
                assert(unit_names(u)[i] == "Gm"@);
            } else if i == 1 {
                assert(unit_names(u)[i] == "gigameter"@);
            } else if i == 2 {
                assert(unit_names(u)[i] == "gigameters"@);
            }
        },
        Unit::Terameter => {
            if i == 0 {
                assert(unit_names(u)[i] == "Tm"@);
            } else if i == 1 {
                assert(unit_names(u)[i] == "terameter"@);
            } else if i == 2 {
                assert(unit_names(u)[i] == "terameters"@);
            }
        },
        Unit::Petameter => {
            if i == 0 {
                assert(unit_names(u)[i] == "Pm"@);
            } else if i == 1 {
                assert(unit_names(u)[i] == "petameter"@);
            } else if i == 2 {
                assert(unit_names(u)[i] == "petameters"@);
            }
        },
        Unit::Exameter => {
            if i == 0 {
                assert(unit_names(u)[i] == "Em"@);
            } else if i == 1 {
                assert(unit_names(u)[i] == "exameter"@);
            } else if i == 2 {
                assert(unit_names(u)[i] == "exameters"@);
            }
        },
        Unit::Zettameter => {
            if i == 0 {
                assert(unit_names(u)[i] == "Zm"@);
            } else if i == 1 {
                assert(unit_names(u)[i] == "zettameter"@);
            } else if i == 2 {
                assert(unit_names(u)[i] == "zettameters"@);
            }
        },
        Unit::Yottameter => {
            if i == 0 {
                assert(unit_names(u)[i] == "Ym"@);
            } else if i == 1 {
                assert(unit_names(u)[i] == "yottameter"@);
            } else if i == 2 {
                assert(unit_names(u)[i] == "yottameters"@);
            }
        },
        Unit::Inch => {
            if i == 0 {
                assert(unit_names(u)[i] == "in"@);
            } else if i == 1 {
                assert(unit_names(u)[i] == "inch"@);
            } else if i == 2 {
                assert(unit_names(u)[i] == "inches"@);
            }
        },
        Unit::Foot => {
            if i == 0 {
                assert(unit_names(u)[i] == "ft"@);
            } else if i == 1 {
                assert(unit_names(u)[i] == "foot"@);
            } else if i == 2 {
                assert(unit_names(u)[i] == "feet"@);
            }
        },
        Unit::Yard => {
            if i == 0 {
                assert(unit_names(u)[i] == "yd"@);
            } else if i == 1 {
                assert(unit_names(u)[i] == "yard"@);
            } else if i == 2 {
                assert(unit_names(u)[i] == "yards"@);
            }
        },
        Unit::Mile => {
            if i == 0 {
                assert(unit_names(u)[i] == "mi"@);
            } else if i == 1 {
                assert(unit_names(u)[i] == "mile"@);
            } else if i == 2 {
                assert(unit_names(u)[i] == "miles"@);
            }
        },
        Unit::Yoctosecond => {
            if i == 0 {
                assert(unit_names(u)[i] == "ys"@);
            } else if i == 1 {
                assert(unit_names(u)[i] == "yoctosecond"@);
            }
        },
        Unit::Zeptosecond => {
            if i == 0 {
                assert(unit_names(u)[i] == "zs"@);
            } else if i == 1 {
                assert(unit_names(u)[i] == "zeptosecond"@);
            }
        },
        Unit::Attosecond => {
            if i == 0 {
                assert(unit_names(u)[i] == "as"@);
            } else if i == 1 {
                assert(unit_names(u)[i] == "attosecond"@);
            }
        },
        Unit::Femtosecond => {
            if i == 0 {
                assert(unit_names(u)[i] == "fs"@);
            } else if i == 1 {
                assert(unit_names(u)[i] == "femtosecond"@);
            }
        },
        Unit::Picosecond => {
            if i == 0 {
                assert(unit_names(u)[i] == "ps"@);
            } else if i == 1 {
                assert(unit_names(u)[i] == "picosecond"@);
            }
        },
        Unit::Nanosecond => {
            if i == 0 {
                assert(unit_names(u)[i] == "ns"@);
            } else if i == 1 {
                assert(unit_names(u)[i] == "nanosecond"@);
            }
        },
        Unit::Microsecond => {
            if i == 0 {
                assert(unit_names(u)[i] == "µs"@);
            } else if i == 1 {
                assert(unit_names(u)[i] == "us"@);
            } else if i == 2 {
                assert(unit_names(u)[i] == "microsecond"@);
            }
        },
        Unit::Millisecond => {
            if i == 0 {
                assert(unit_names(u)[i] == "ms"@);
            } else if i == 1 {
                assert(unit_names(u)[i] == "millisecond"@);
            }
        },
        Unit::Second => {
            if i == 0 {
                assert(unit_names(u)[i] == "s"@);
            } else if i == 1 {
                assert(unit_names(u)[i] == "sec"@);
            } else if i == 2 {
                assert(unit_names(u)[i] == "second"@);
            } else if i == 3 {
                assert(unit_names(u)[i] == "seconds"@);
            }
        },
        Unit::Minute => {
            if i == 0 {
                assert(unit_names(u)[i] == "min"@);
            } else if i == 1 {
                assert(unit_names(u)[i] == "minute"@);
            } else if i == 2 {
                assert(unit_names(u)[i] == "minutes"@);
            }
        },
        Unit::Hour => {
            if i == 0 {
                assert(unit_names(u)[i] == "h"@);
            } else if i == 1 {
                assert(unit_names(u)[i] == "hr"@);
            } else if i == 2 {
                assert(unit_names(u)[i] == "hour"@);
            } else if i == 3 {
                assert(unit_names(u)[i] == "hours"@);
            }
        },
        Unit::Day => {
            if i == 0 {
                assert(unit_names(u)[i] == "d"@);
            } else if i == 1 {
                assert(unit_names(u)[i] == "day"@);
            } else if i == 2 {
                assert(unit_names(u)[i] == "days"@);
            }
        },
        Unit::Week => {
            if i == 0 {
                assert(unit_names(u)[i] == "wk"@);
            } else if i == 1 {
                assert(unit_names(u)[i] == "week"@);
            } else if i == 2 {
                assert(unit_names(u)[i] == "weeks"@);
            }
        },
        Unit::Year => {
            if i == 0 {
                assert(unit_names(u)[i] == "yr"@);
            } else if i == 1 {
                assert(unit_names(u)[i] == "year"@);
            } else if i == 2 {
                assert(unit_names(u)[i] == "years"@);
            }
        },
        Unit::Decade => {
            if i == 0 {
                assert(unit_names(u)[i] == "decade"@);
            } else if i == 1 {
                assert(unit_names(u)[i] == "decades"@);
            }
        },
        Unit::Gram => {
            if i == 0 {
                assert(unit_names(u)[i] == "g"@);
            } else if i == 1 {
                assert(unit_names(u)[i] == "gram"@);
            } else if i == 2 {
                assert(unit_names(u)[i] == "grams"@);
            }
        },
        Unit::Kilogram => {
            if i == 0 {
                assert(unit_names(u)[i] == "kg"@);
            } else if i == 1 {
                assert(unit_names(u)[i] == "kilogram"@);
            } else if i == 2 {
                assert(unit_names(u)[i] == "kilograms"@);
            }
        },
        Unit::Milligram => {
            if i == 0 {
                assert(unit_names(u)[i] == "mg"@);
            } else if i == 1 {
                assert(unit_names(u)[i] == "milligram"@);
            } else if i == 2 {
                assert(unit_names(u)[i] == "milligrams"@);
            }
        },
        Unit::Microgram => {
            if i == 0 {
                assert(unit_names(u)[i] == "µg"@);
            } else if i == 1 {
                assert(unit_names(u)[i] == "ug"@);
            } else if i == 2 {
                assert(unit_names(u)[i] == "microgram"@);
            }
        },
        Unit::Tonne => {
            if i == 0 {
                assert(unit_names(u)[i] == "t"@);
            } else if i == 1 {
                assert(unit_names(u)[i] == "tonne"@);
            } else if i == 2 {
                assert(unit_names(u)[i] == "tonnes"@);
            }
        },
        Unit::Ounce => {
            if i == 0 {
                assert(unit_names(u)[i] == "oz"@);
            } else if i == 1 {
                assert(unit_names(u)[i] == "ounce"@);
            } else if i == 2 {
                assert(unit_names(u)[i] == "ounces"@);
            }
        },
        Unit::Pound => {
            if i == 0 {
                assert(unit_names(u)[i] == "lb"@);
            } else if i == 1 {
                assert(unit_names(u)[i] == "lbs"@);
            } else if i == 2 {
                assert(unit_names(u)[i] == "pound"@);
            } else if i == 3 {
                assert(unit_names(u)[i] == "pounds"@);
            }
        },
        Unit::Stone => {
            if i == 0 {
                assert(unit_names(u)[i] == "st"@);
            } else if i == 1 {
                assert(unit_names(u)[i] == "stone"@);
            } else if i == 2 {
                assert(unit_names(u)[i] == "stones"@);
            }
        },
        Unit::ShortTon => {
            if i == 0 {
                assert(unit_names(u)[i] == "shortton"@);
            } else if i == 1 {
                assert(unit_names(u)[i] == "short ton"@);
            }
        },
        Unit::LongTon => {
            if i == 0 {
                assert(unit_names(u)[i] == "longton"@);
            } else if i == 1 {
                assert(unit_names(u)[i] == "long ton"@);
            }
        },
        Unit::Kelvin => {
            if i == 0 {
                assert(unit_names(u)[i] == "k"@);
            } else if i == 1 {
                assert(unit_names(u)[i] == "kelvin"@);
            }
        },
        Unit::Celsius => {
            if i == 0 {
                assert(unit_names(u)[i] == "c"@);
            } else if i == 1 {
                assert(unit_names(u)[i] == "°c"@);
            } else if i == 2 {
                assert(unit_names(u)[i] == "celsius"@);
            }
        },
        Unit::Fahrenheit => {
            if i == 0 {
                assert(unit_names(u)[i] == "f"@);
            } else if i == 1 {
                assert(unit_names(u)[i] == "°f"@);
            } else if i == 2 {
                assert(unit_names(u)[i] == "fahrenheit"@);
            }
        },
        Unit::Mole => {
            if i == 0 {
                assert(unit_names(u)[i] == "mol"@);
            } else if i == 1 {
                assert(unit_names(u)[i] == "mole"@);
            } else if i == 2 {
                assert(unit_names(u)[i] == "moles"@);
            }
        },
        Unit::Candela => {
            if i == 0 {
                assert(unit_names(u)[i] == "cd"@);
            } else if i == 1 {
                assert(unit_names(u)[i] == "candela"@);
            }
        },
        Unit::Percent => {
            if i == 0 {
                assert(unit_names(u)[i] == "%"@);
            } else if i == 1 {
                assert(unit_names(u)[i] == "pct"@);
            } else if i == 2 {
                assert(unit_names(u)[i] == "percent"@);
            }
        },
        Unit::Pixel => {
            if i == 0 {
                assert(unit_names(u)[i] == "px"@);
            } else if i == 1 {
                assert(unit_names(u)[i] == "pixel"@);
            } else if i == 2 {
                assert(unit_names(u)[i] == "pixels"@);
            }
        },
        Unit::Pi => {
            if i == 0 {
                assert(unit_names(u)[i] == "pi"@);
            } else if i == 1 {
                assert(unit_names(u)[i] == "π"@);
            }
        },
        Unit::Hertz => {
            if i == 0 {
                assert(unit_names(u)[i] == "hz"@);
            } else if i == 1 {
                assert(unit_names(u)[i] == "hertz"@);
            }
        },
        Unit::Newton => {
            if i == 0 {
                assert(unit_names(u)[i] == "n"@);
            } else if i == 1 {
                assert(unit_names(u)[i] == "newton"@);
            }
        },
        Unit::Pascal => {
            if i == 0 {
                assert(unit_names(u)[i] == "pa"@);
            } else if i == 1 {
                assert(unit_names(u)[i] == "pascal"@);
            }
        },
        Unit::Joule => {
            if i == 0 {
                assert(unit_names(u)[i] == "j"@);
            } else if i == 1 {
                assert(unit_names(u)[i] == "joule"@);
            }
        },
        Unit::Watt => {
            if i == 0 {
                assert(unit_names(u)[i] == "w"@);
            } else if i == 1 {
                assert(unit_names(u)[i] == "watt"@);
            }
        },
        Unit::Volt => {
            if i == 0 {
                assert(unit_names(u)[i] == "v"@);
            } else if i == 1 {
                assert(unit_names(u)[i] == "volt"@);
            }
        },
        Unit::Ohm => {
            if i == 0 {
                assert(unit_names(u)[i] == "ohm"@);
            } else if i == 1 {
                assert(unit_names(u)[i] == "Ω"@);
            }
        },
        _ => {},
    }
}

} // verus!
