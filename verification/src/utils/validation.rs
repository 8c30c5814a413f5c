//! Validation of what users type: password strength, acceptance of the
//! terms, and the shape of each request.

use vstd::prelude::*;
use vstd::string::StrSliceExecFns;
use vstd::utf8::encode_utf8;
use crate::models::auth::LoginRequest;
use crate::models::auth::RegisterRequest;
use crate::models::user::ChangePasswordRequest;
use crate::models::user::UpdateProfileRequest;

verus! {

/// Whether `char::is_lowercase` holds of `c`.
pub uninterp spec fn char_is_lowercase(c: char) -> bool;

/// Whether `char::is_uppercase` holds of `c`.
pub uninterp spec fn char_is_uppercase(c: char) -> bool;

/// Whether `char::is_numeric` holds of `c`.
pub uninterp spec fn char_is_numeric(c: char) -> bool;

/// Whether `validator::ValidateEmail::validate_email` accepts `text` as an
/// email address.
pub uninterp spec fn email_validity(text: Seq<char>) -> bool;

pub assume_specification[ char::is_lowercase ](c: char) -> (answer: bool)
    ensures
        answer == char_is_lowercase(c),
;

pub assume_specification[ char::is_uppercase ](c: char) -> (answer: bool)
    ensures
        answer == char_is_uppercase(c),
;

pub assume_specification[ char::is_numeric ](c: char) -> (answer: bool)
    ensures
        answer == char_is_numeric(c),
;

/// Calls `validate_email` of `validator::ValidateEmail` on `text`. Its
/// answer depends on the text alone.
#[verifier::external_body]
fn validate_email(text: &str) -> (valid: bool)
    ensures
        valid == email_validity(text@),
{
    validator::ValidateEmail::validate_email(&text)
}

/// Why a value was refused: a short code, as `weak_password`.
#[derive(Debug)]
pub struct ValidationError {
    pub code: String,
}

/// Why a field of a request was refused.
#[derive(Debug)]
pub struct FieldError {
    pub field: String,
    pub code: String,
    pub message: String,
}

/// The mathematical value of a [`FieldError`].
pub ghost struct FieldErrorView {
    pub field: Seq<char>,
    pub code: Seq<char>,
    pub message: Seq<char>,
}

impl View for FieldError {
    type V = FieldErrorView;

    open spec fn view(&self) -> FieldErrorView {
        FieldErrorView { field: self.field@, code: self.code@, message: self.message@ }
    }
}

/// The fields of a request that were refused, in the order of the fields.
#[derive(Debug)]
pub struct ValidationErrors {
    pub errors: Vec<FieldError>,
}

impl View for ValidationErrors {
    type V = Seq<FieldErrorView>;

    open spec fn view(&self) -> Seq<FieldErrorView> {
        self.errors@.map_values(|error: FieldError| error@)
    }
}

/// The characters that count as special in a password.
pub open spec fn special_chars() -> Seq<char> {
    "!@#$%^&*()_+-=[]{}|;:,.<>?"@
}

/// Whether some character of `text` is a lower-case letter.
pub open spec fn has_lowercase(text: Seq<char>) -> bool {
    exists|i: int| 0 <= i < text.len() && char_is_lowercase(#[trigger] text[i])
}

/// Whether some character of `text` is an upper-case letter.
pub open spec fn has_uppercase(text: Seq<char>) -> bool {
    exists|i: int| 0 <= i < text.len() && char_is_uppercase(#[trigger] text[i])
}

/// Whether some character of `text` is numeric.
pub open spec fn has_numeric(text: Seq<char>) -> bool {
    exists|i: int| 0 <= i < text.len() && char_is_numeric(#[trigger] text[i])
}

/// Whether some character of `text` is special.
pub open spec fn has_special(text: Seq<char>) -> bool {
    exists|i: int| 0 <= i < text.len() && special_chars().contains(#[trigger] text[i])
}

/// One point where the condition holds.
pub open spec fn point(condition: bool) -> nat {
    if condition {
        1
    } else {
        0
    }
}

/// The strength of a password, from 0 to 5: one point each for a length of
/// at least eight bytes, a lower-case letter, an upper-case letter, a
/// numeric character and a special character.
pub open spec fn password_score(password: Seq<char>) -> nat {
    point(encode_utf8(password).len() >= 8) + point(has_lowercase(password)) + point(
        has_uppercase(password),
    ) + point(has_numeric(password)) + point(has_special(password))
}

/// Whether `c` occurs in `text`.
fn contains_char(text: &str, c: char) -> (found: bool)
    ensures
        found == text@.contains(c),
{
    let mut found = false;
    for other in it: text.chars()
        invariant
            it.seq() == text@,
            found == exists|i: int| 0 <= i < it.index() && text@[i] == c,
    {
        if other == c {
            found = true;
        }
    }
    found
}

/// Accepts a password of strength four or more, and refuses a weaker one
/// with the code `weak_password`.
pub fn validate_password_strength(password: &str) -> (result: Result<(), ValidationError>)
    ensures
        result is Ok <==> password_score(password@) >= 4,
        result matches Err(error) ==> error.code@ == "weak_password"@,
{
    let mut lowercase = false;
    let mut uppercase = false;
    let mut numeric = false;
    let mut special = false;
    for c in it: password.chars()
        invariant
            it.seq() == password@,
            lowercase == exists|i: int|
                0 <= i < it.index() && char_is_lowercase(#[trigger] password@[i]),
            uppercase == exists|i: int|
                0 <= i < it.index() && char_is_uppercase(#[trigger] password@[i]),
            numeric == exists|i: int|
                0 <= i < it.index() && char_is_numeric(#[trigger] password@[i]),
            special == exists|i: int|
                0 <= i < it.index() && special_chars().contains(#[trigger] password@[i]),
    {
        if c.is_lowercase() {
            lowercase = true;
        }
        if c.is_uppercase() {
            uppercase = true;
        }
        if c.is_numeric() {
            numeric = true;
        }
        if contains_char("!@#$%^&*()_+-=[]{}|;:,.<>?", c) {
            special = true;
        }
    }
    let mut score: u8 = 0;
    if password.as_bytes().len() >= 8 {
        score += 1;
    }
    if lowercase {
        score += 1;
    }
    if uppercase {
        score += 1;
    }
    if numeric {
        score += 1;
    }
    if special {
        score += 1;
    }
    assert(score == password_score(password@));
    if score < 4 {
        Err(ValidationError { code: "weak_password".to_string() })
    } else {
        Ok(())
    }
}

/// Accepts the terms flag where it is set, and refuses it with the code
/// `terms_not_accepted` where it is not.
pub fn validate_terms_accepted(value: &bool) -> (result: Result<(), ValidationError>)
    ensures
        result is Ok <==> *value,
        result matches Err(error) ==> error.code@ == "terms_not_accepted"@,
{
    if *value {
        Ok(())
    } else {
        Err(ValidationError { code: "terms_not_accepted".to_string() })
    }
}

/// The refusal of one field, if `accepted` does not hold.
pub open spec fn refusal(accepted: bool, field: Seq<char>, code: Seq<char>, message: Seq<char>)
    -> Seq<FieldErrorView> {
    if accepted {
        Seq::empty()
    } else {
        seq![FieldErrorView { field: field, code: code, message: message }]
    }
}

/// What is wrong with a registration request: the email must be an email
/// address, the password at least eight characters long, the confirmation
/// equal to the password, and the terms accepted.
pub open spec fn register_errors(request: RegisterRequest) -> Seq<FieldErrorView> {
    refusal(
        email_validity(request.email@),
        "email"@,
        "email"@,
        "Please enter a valid email address"@,
    ) + refusal(
        request.password@.len() >= 8,
        "password"@,
        "length"@,
        "Password must be at least 8 characters long"@,
    ) + refusal(
        request.confirm_password@ == request.password@,
        "confirm_password"@,
        "must_match"@,
        "Passwords do not match"@,
    ) + refusal(
        request.agree_to_terms,
        "agree_to_terms"@,
        "terms_not_accepted"@,
        "You must agree to the terms and conditions"@,
    )
}

/// What is wrong with a login request: the email must be an email address
/// and the password not empty.
pub open spec fn login_errors(request: LoginRequest) -> Seq<FieldErrorView> {
    refusal(
        email_validity(request.email@),
        "email"@,
        "email"@,
        "Please enter a valid email address"@,
    ) + refusal(request.password@.len() >= 1, "password"@, "length"@, "Password is required"@)
}

/// What is wrong with a profile update: the name must not be empty and the
/// email must be an email address.
pub open spec fn update_profile_errors(request: UpdateProfileRequest) -> Seq<FieldErrorView> {
    refusal(request.name@.len() >= 1, "name"@, "length"@, "Name is required"@) + refusal(
        email_validity(request.email@),
        "email"@,
        "email"@,
        "Please enter a valid email address"@,
    )
}

/// What is wrong with a password change: the current password must not be
/// empty, the new one at least eight characters long, and the confirmation
/// equal to the new one.
pub open spec fn change_password_errors(request: ChangePasswordRequest) -> Seq<FieldErrorView> {
    refusal(
        request.current_password@.len() >= 1,
        "current_password"@,
        "length"@,
        "Current password is required"@,
    ) + refusal(
        request.new_password@.len() >= 8,
        "new_password"@,
        "length"@,
        "Password must be at least 8 characters long"@,
    ) + refusal(
        request.confirm_password@ == request.new_password@,
        "confirm_password"@,
        "must_match"@,
        "Passwords do not match"@,
    )
}

impl ValidationErrors {
    /// No refusals.
    fn none() -> (errors: ValidationErrors)
        ensures
            errors@ == Seq::<FieldErrorView>::empty(),
    {
        let errors = ValidationErrors { errors: Vec::new() };
        assert(errors@ =~= Seq::empty());
        errors
    }

    /// Adds the refusal of one field, unless `accepted` holds.
    fn check(&mut self, accepted: bool, field: &str, code: &str, message: &str)
        ensures
            final(self)@ == old(self)@ + refusal(accepted, field@, code@, message@),
    {
        if !accepted {
            self.errors.push(
                FieldError {
                    field: field.to_string(),
                    code: code.to_string(),
                    message: message.to_string(),
                },
            );
        }
        assert(self@ =~= old(self)@ + refusal(accepted, field@, code@, message@));
    }

    /// The verdict on a request: accepted where nothing was refused.
    fn verdict(self) -> (result: Result<(), ValidationErrors>)
        ensures
            result is Ok <==> self@.len() == 0,
            result matches Err(errors) ==> errors@ == self@,
    {
        if self.errors.len() == 0 {
            Ok(())
        } else {
            Err(self)
        }
    }
}

impl RegisterRequest {
    /// Checks the shape of the request and lists every field that is
    /// refused, in the order of the fields.
    pub fn validate(&self) -> (result: Result<(), ValidationErrors>)
        ensures
            result is Ok <==> register_errors(*self).len() == 0,
            result matches Err(errors) ==> errors@ == register_errors(*self),
    {
        let mut errors = ValidationErrors::none();
        errors.check(
            validate_email(self.email.as_str()),
            "email",
            "email",
            "Please enter a valid email address",
        );
        errors.check(
            self.password.as_str().unicode_len() >= 8,
            "password",
            "length",
            "Password must be at least 8 characters long",
        );
        errors.check(
            self.confirm_password == self.password,
            "confirm_password",
            "must_match",
            "Passwords do not match",
        );
        errors.check(
            validate_terms_accepted(&self.agree_to_terms).is_ok(),
            "agree_to_terms",
            "terms_not_accepted",
            "You must agree to the terms and conditions",
        );
        assert(errors@ =~= register_errors(*self));
        errors.verdict()
    }
}

impl LoginRequest {
    /// Checks the shape of the request and lists every field that is
    /// refused, in the order of the fields.
    pub fn validate(&self) -> (result: Result<(), ValidationErrors>)
        ensures
            result is Ok <==> login_errors(*self).len() == 0,
            result matches Err(errors) ==> errors@ == login_errors(*self),
    {
        let mut errors = ValidationErrors::none();
        errors.check(
            validate_email(self.email.as_str()),
            "email",
            "email",
            "Please enter a valid email address",
        );
        errors.check(
            self.password.as_str().unicode_len() >= 1,
            "password",
            "length",
            "Password is required",
        );
        assert(errors@ =~= login_errors(*self));
        errors.verdict()
    }
}

impl UpdateProfileRequest {
    /// Checks the shape of the request and lists every field that is
    /// refused, in the order of the fields.
    pub fn validate(&self) -> (result: Result<(), ValidationErrors>)
        ensures
            result is Ok <==> update_profile_errors(*self).len() == 0,
            result matches Err(errors) ==> errors@ == update_profile_errors(*self),
    {
        let mut errors = ValidationErrors::none();
        errors.check(self.name.as_str().unicode_len() >= 1, "name", "length", "Name is required");
        errors.check(
            validate_email(self.email.as_str()),
            "email",
            "email",
            "Please enter a valid email address",
        );
        assert(errors@ =~= update_profile_errors(*self));
        errors.verdict()
    }
}

impl ChangePasswordRequest {
    /// Checks the shape of the request and lists every field that is
    /// refused, in the order of the fields.
    pub fn validate(&self) -> (result: Result<(), ValidationErrors>)
        ensures
            result is Ok <==> change_password_errors(*self).len() == 0,
            result matches Err(errors) ==> errors@ == change_password_errors(*self),
    {
        let mut errors = ValidationErrors::none();
        errors.check(
            self.current_password.as_str().unicode_len() >= 1,
            "current_password",
            "length",
            "Current password is required",
        );
        errors.check(
            self.new_password.as_str().unicode_len() >= 8,
            "new_password",
            "length",
            "Password must be at least 8 characters long",
        );
        errors.check(
            self.confirm_password == self.new_password,
            "confirm_password",
            "must_match",
            "Passwords do not match",
        );
        assert(errors@ =~= change_password_errors(*self));
        errors.verdict()
    }
}

} // verus!
