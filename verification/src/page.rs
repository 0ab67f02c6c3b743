//! The fixed catalog of pages: one per finger, plus the bulk
//! "delete all users' prints" page. Fingers carry the protocol's
//! finger identifier; the bulk page carries none.

use vstd::prelude::*;

verus! {

/// The page to display: one of the ten fingers, or the bulk delete page.
#[derive(Default, Clone, Copy, Debug, PartialEq, Eq, Structural)]
pub enum Page {
    RightThumb,
    #[default]
    RightIndex,
    RightMiddle,
    RightRing,
    RightPinky,
    LeftThumb,
    LeftIndex,
    LeftMiddle,
    LeftRing,
    LeftPinky,
    DeleteAllUsersPrints,
}

/// The human-readable name of a page, as a character sequence.
pub open spec fn spec_localized_name(p: Page) -> Seq<char> {
    match p {
        Page::RightThumb => "Right Thumb"@,
        Page::RightIndex => "Right Index"@,
        Page::RightMiddle => "Right Middle"@,
        Page::RightRing => "Right Ring"@,
        Page::RightPinky => "Right Pinky"@,
        Page::LeftThumb => "Left Thumb"@,
        Page::LeftIndex => "Left Index"@,
        Page::LeftMiddle => "Left Middle"@,
        Page::LeftRing => "Left Ring"@,
        Page::LeftPinky => "Left Pinky"@,
        Page::DeleteAllUsersPrints => "Delete All Users' Prints"@,
    }
}

/// The protocol finger identifier of a page, if it names a finger.
pub open spec fn spec_finger_id(p: Page) -> Option<Seq<char>> {
    match p {
        Page::RightThumb => Some("right-thumb"@),
        Page::RightIndex => Some("right-index-finger"@),
        Page::RightMiddle => Some("right-middle-finger"@),
        Page::RightRing => Some("right-ring-finger"@),
        Page::RightPinky => Some("right-little-finger"@),
        Page::LeftThumb => Some("left-thumb"@),
        Page::LeftIndex => Some("left-index-finger"@),
        Page::LeftMiddle => Some("left-middle-finger"@),
        Page::LeftRing => Some("left-ring-finger"@),
        Page::LeftPinky => Some("left-little-finger"@),
        Page::DeleteAllUsersPrints => None,
    }
}

impl Page {
    /// Every page, in catalog order: the ten fingers, then the bulk page.
    pub fn all() -> (pages: Vec<Page>)
        ensures
            pages@ =~= seq![
                Page::RightThumb,
                Page::RightIndex,
                Page::RightMiddle,
                Page::RightRing,
                Page::RightPinky,
                Page::LeftThumb,
                Page::LeftIndex,
                Page::LeftMiddle,
                Page::LeftRing,
                Page::LeftPinky,
                Page::DeleteAllUsersPrints,
            ],
    {
        let mut pages: Vec<Page> = Vec::new();
        pages.push(Page::RightThumb);
        pages.push(Page::RightIndex);
        pages.push(Page::RightMiddle);
        pages.push(Page::RightRing);
        pages.push(Page::RightPinky);
        pages.push(Page::LeftThumb);
        pages.push(Page::LeftIndex);
        pages.push(Page::LeftMiddle);
        pages.push(Page::LeftRing);
        pages.push(Page::LeftPinky);
        pages.push(Page::DeleteAllUsersPrints);
        pages
    }

    /// The human-readable name of this page.
    pub fn localized_name(&self) -> (name: String)
        ensures
            name@ == spec_localized_name(*self),
    {
        match self {
            Page::RightThumb => "Right Thumb".to_owned(),
            Page::RightIndex => "Right Index".to_owned(),
            Page::RightMiddle => "Right Middle".to_owned(),
            Page::RightRing => "Right Ring".to_owned(),
            Page::RightPinky => "Right Pinky".to_owned(),
            Page::LeftThumb => "Left Thumb".to_owned(),
            Page::LeftIndex => "Left Index".to_owned(),
            Page::LeftMiddle => "Left Middle".to_owned(),
            Page::LeftRing => "Left Ring".to_owned(),
            Page::LeftPinky => "Left Pinky".to_owned(),
            Page::DeleteAllUsersPrints => "Delete All Users' Prints".to_owned(),
        }
    }

    /// The protocol finger identifier of this page; the bulk page has none.
    pub fn as_finger_id(&self) -> (r: Option<&'static str>)
        ensures
            match r {
                Some(s) => spec_finger_id(*self) == Some(s@),
                None => spec_finger_id(*self) is None,
            },
    {
        match self {
            Page::RightThumb => Some("right-thumb"),
            Page::RightIndex => Some("right-index-finger"),
            Page::RightMiddle => Some("right-middle-finger"),
            Page::RightRing => Some("right-ring-finger"),
            Page::RightPinky => Some("right-little-finger"),
            Page::LeftThumb => Some("left-thumb"),
            Page::LeftIndex => Some("left-index-finger"),
            Page::LeftMiddle => Some("left-middle-finger"),
            Page::LeftRing => Some("left-ring-finger"),
            Page::LeftPinky => Some("left-little-finger"),
            Page::DeleteAllUsersPrints => None,
        }
    }
}

} // verus!
