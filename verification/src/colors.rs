use vstd::prelude::*;

verus! {

/// Escape sequence setting the green foreground.
pub open spec fn green_seq() -> Seq<char> {
    "\x1b[0;32m"@
}

/// Escape sequence setting the yellow foreground.
pub open spec fn yellow_seq() -> Seq<char> {
    "\x1b[0;33m"@
}

/// Escape sequence setting the red foreground.
pub open spec fn red_seq() -> Seq<char> {
    "\x1b[0;31m"@
}

/// Escape sequence setting the blue foreground.
pub open spec fn blue_seq() -> Seq<char> {
    "\x1b[0;34m"@
}

/// Escape sequence setting the gray foreground.
pub open spec fn gray_seq() -> Seq<char> {
    "\x1b[0;90m"@
}

/// Escape sequence setting the bright yellow foreground.
pub open spec fn bright_yellow_seq() -> Seq<char> {
    "\x1b[93m"@
}

/// Escape sequence turning on bold type.
pub open spec fn bold_seq() -> Seq<char> {
    "\x1b[1m"@
}

/// Escape sequence resetting all attributes.
pub open spec fn reset_seq() -> Seq<char> {
    "\x1b[0m"@
}

pub fn green() -> (r: &'static str)
    ensures
        r@ == green_seq(),
{
    "\x1b[0;32m"
}

pub fn yellow() -> (r: &'static str)
    ensures
        r@ == yellow_seq(),
{
    "\x1b[0;33m"
}

pub fn red() -> (r: &'static str)
    ensures
        r@ == red_seq(),
{
    "\x1b[0;31m"
}

pub fn blue() -> (r: &'static str)
    ensures
        r@ == blue_seq(),
{
    "\x1b[0;34m"
}

pub fn gray() -> (r: &'static str)
    ensures
        r@ == gray_seq(),
{
    "\x1b[0;90m"
}

pub fn bright_yellow() -> (r: &'static str)
    ensures
        r@ == bright_yellow_seq(),
{
    "\x1b[93m"
}

pub fn bold() -> (r: &'static str)
    ensures
        r@ == bold_seq(),
{
    "\x1b[1m"
}

pub fn reset() -> (r: &'static str)
    ensures
        r@ == reset_seq(),
{
    "\x1b[0m"
}

} // verus!
