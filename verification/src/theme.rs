//! The themes a user can choose between, as the widget toolkit defines them.

use vstd::prelude::*;

verus! {

#[verifier::external_type_specification]
#[verifier::external_body]
pub struct ExCustom(iced::theme::Custom);

#[verifier::external_type_specification]
pub struct ExTheme(iced::Theme);

#[verifier::external_type_specification]
pub struct ExHighlightTheme(iced::highlighter::Theme);

} // verus!
