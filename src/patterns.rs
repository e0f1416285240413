//! Decisions made by matching patterns: on options, on combinations of
//! conditions, and on pairs of options.
use vstd::prelude::*;

verus! {

/// One more than the value held, or nothing when nothing is held.
pub fn increment(x: Option<i32>) -> (r: Option<i32>)
    requires
        x matches Some(i) ==> i < i32::MAX,
    ensures
        r == (match x {
            Some(i) => Some((i + 1) as i32),
            None => None::<i32>,
        }),
{
    match x {
        None => None,
        Some(i) => Some(i + 1),
    }
}

/// The background colour that the first matching rule picks.
#[derive(Clone, Copy, Debug, PartialEq, Eq, Structural)]
pub enum Background {
    /// The user's favourite colour.
    Favorite,
    Green,
    Orange,
    Purple,
    Blue,
}

/// Picks the background: the favourite colour if there is one, green on a
/// Tuesday, orange above the age of thirty and purple up to it, blue when
/// the age is not known.
pub fn background_color(has_favorite: bool, is_tuesday: bool, age: Option<u8>) -> (r: Background)
    ensures
        r == (if has_favorite {
            Background::Favorite
        } else if is_tuesday {
            Background::Green
        } else {
            match age {
                Some(a) => if a > 30 {
                    Background::Orange
                } else {
                    Background::Purple
                },
                None => Background::Blue,
            }
        }),
{
    if has_favorite {
        Background::Favorite
    } else if is_tuesday {
        Background::Green
    } else if let Some(age) = age {
        if age > 30 {
            Background::Orange
        } else {
            Background::Purple
        }
    } else {
        Background::Blue
    }
}

/// A setting after an attempt to change it: a customised value is not
/// overwritten by another one; otherwise the new value is taken.
pub fn updated_setting(setting_value: Option<i32>, new_setting_value: Option<i32>) -> (r: Option<
    i32,
>)
    ensures
        r == (if setting_value is Some && new_setting_value is Some {
            setting_value
        } else {
            new_setting_value
        }),
{
    match (setting_value, new_setting_value) {
        (Some(_), Some(_)) => setting_value,
        _ => new_setting_value,
    }
}

} // verus!
