//! A single login credential: a name for the service it belongs to, a
//! username, a password and an optional URL of the login page.

use vstd::prelude::*;

verus! {

/// The view of an optional string: the characters it holds, if any.
pub open spec fn option_view(o: Option<String>) -> Option<Seq<char>> {
    match o {
        Some(s) => Some(s@),
        None => None,
    }
}

/// A single stored login credential.
///
/// `Debug` prints the password in plaintext: avoid logging values of this
/// type where logs may be persisted or exposed.
#[derive(Debug, Clone, PartialEq, Eq)]
pub struct Credential {
    name: String,
    username: String,
    password: String,
    url: Option<String>,
}

/// What a [`Credential`] holds, as characters.
pub struct CredentialView {
    pub name: Seq<char>,
    pub username: Seq<char>,
    pub password: Seq<char>,
    pub url: Option<Seq<char>>,
}

impl View for Credential {
    type V = CredentialView;

    closed spec fn view(&self) -> CredentialView {
        CredentialView {
            name: self.name@,
            username: self.username@,
            password: self.password@,
            url: option_view(self.url),
        }
    }
}

/// Builder for [`Credential`]: every field starts out unset.
#[derive(Debug, Clone, PartialEq, Eq)]
pub struct CredentialBuilder {
    name: Option<String>,
    username: Option<String>,
    password: Option<String>,
    url: Option<String>,
}

/// What a [`CredentialBuilder`] holds, as characters.
pub struct CredentialBuilderView {
    pub name: Option<Seq<char>>,
    pub username: Option<Seq<char>>,
    pub password: Option<Seq<char>>,
    pub url: Option<Seq<char>>,
}

impl View for CredentialBuilder {
    type V = CredentialBuilderView;

    closed spec fn view(&self) -> CredentialBuilderView {
        CredentialBuilderView {
            name: option_view(self.name),
            username: option_view(self.username),
            password: option_view(self.password),
            url: option_view(self.url),
        }
    }
}

/// Errors returned by [`CredentialBuilder::build`].
#[derive(Debug, Clone, PartialEq, Eq, Structural)]
pub enum CredentialBuilderError {
    /// `name` was not provided.
    MissingName,
    /// `username` was not provided.
    MissingUsername,
    /// `password` was not provided.
    MissingPassword,
}

/// What `build` gives for a builder holding `b`: the first required field
/// that is missing, in the order name, username, password, or else the
/// credential made of the fields.
pub open spec fn build_spec(b: CredentialBuilderView) -> Result<CredentialView, CredentialBuilderError> {
    if b.name is None {
        Err(CredentialBuilderError::MissingName)
    } else if b.username is None {
        Err(CredentialBuilderError::MissingUsername)
    } else if b.password is None {
        Err(CredentialBuilderError::MissingPassword)
    } else {
        Ok(CredentialView {
            name: b.name->0,
            username: b.username->0,
            password: b.password->0,
            url: b.url,
        })
    }
}

/// The view of a result of `build`.
pub open spec fn build_result_view(r: Result<Credential, CredentialBuilderError>) -> Result<
    CredentialView,
    CredentialBuilderError,
> {
    match r {
        Ok(c) => Ok(c@),
        Err(e) => Err(e),
    }
}

impl Credential {
    /// Creates a credential from its four fields.
    pub fn new(name: String, username: String, password: String, url: Option<String>) -> (c: Self)
        ensures
            c@ == (CredentialView {
                name: name@,
                username: username@,
                password: password@,
                url: option_view(url),
            }),
    {
        Credential { name, username, password, url }
    }

    /// Creates a [`CredentialBuilder`] with every field unset.
    pub fn builder() -> (b: CredentialBuilder)
        ensures
            b@ == (CredentialBuilderView { name: None, username: None, password: None, url: None }),
    {
        CredentialBuilder::default()
    }

    /// Returns the credential's name.
    pub fn name(&self) -> (r: &str)
        ensures
            r@ == self@.name,
    {
        self.name.as_str()
    }

    /// Sets the credential's name; returns the credential for chaining.
    pub fn set_name(&mut self, name: String) -> (r: &mut Self)
        ensures
            r@ == (CredentialView { name: name@, ..old(self)@ }),
            final(self)@ == final(r)@,
    {
        self.name = name;
        self
    }

    /// Returns the credential's username.
    pub fn username(&self) -> (r: &str)
        ensures
            r@ == self@.username,
    {
        self.username.as_str()
    }

    /// Sets the credential's username; returns the credential for chaining.
    pub fn set_username(&mut self, username: String) -> (r: &mut Self)
        ensures
            r@ == (CredentialView { username: username@, ..old(self)@ }),
            final(self)@ == final(r)@,
    {
        self.username = username;
        self
    }

    /// Returns the credential's password, in plaintext.
    pub fn password(&self) -> (r: &str)
        ensures
            r@ == self@.password,
    {
        self.password.as_str()
    }

    /// Sets the credential's password; returns the credential for chaining.
    pub fn set_password(&mut self, password: String) -> (r: &mut Self)
        ensures
            r@ == (CredentialView { password: password@, ..old(self)@ }),
            final(self)@ == final(r)@,
    {
        self.password = password;
        self
    }

    /// Returns the credential's URL, if one is set.
    pub fn url(&self) -> (r: Option<&str>)
        ensures
            match r {
                Some(u) => self@.url == Some(u@),
                None => self@.url is None,
            },
    {
        match &self.url {
            Some(u) => Some(u.as_str()),
            None => None,
        }
    }

    /// Sets, or clears with `None`, the credential's URL; returns the
    /// credential for chaining.
    pub fn set_url(&mut self, url: Option<String>) -> (r: &mut Self)
        ensures
            r@ == (CredentialView { url: option_view(url), ..old(self)@ }),
            final(self)@ == final(r)@,
    {
        self.url = url;
        self
    }
}

impl Default for CredentialBuilder {
    fn default() -> (b: Self)
        ensures
            b@ == (CredentialBuilderView { name: None, username: None, password: None, url: None }),
    {
        CredentialBuilder { name: None, username: None, password: None, url: None }
    }
}

impl CredentialBuilder {
    /// Sets the credential name (required).
    pub fn name(self, name: String) -> (b: Self)
        ensures
            b@ == (CredentialBuilderView { name: Some(name@), ..self@ }),
    {
        CredentialBuilder { name: Some(name), ..self }
    }

    /// Sets the credential username (required).
    pub fn username(self, username: String) -> (b: Self)
        ensures
            b@ == (CredentialBuilderView { username: Some(username@), ..self@ }),
    {
        CredentialBuilder { username: Some(username), ..self }
    }

    /// Sets the credential password (required).
    pub fn password(self, password: String) -> (b: Self)
        ensures
            b@ == (CredentialBuilderView { password: Some(password@), ..self@ }),
    {
        CredentialBuilder { password: Some(password), ..self }
    }

    /// Sets the credential URL (optional).
    pub fn url(self, url: String) -> (b: Self)
        ensures
            b@ == (CredentialBuilderView { url: Some(url@), ..self@ }),
    {
        CredentialBuilder { url: Some(url), ..self }
    }

    /// Builds a [`Credential`], or names the first required field that was
    /// never set.
    pub fn build(self) -> (r: Result<Credential, CredentialBuilderError>)
        ensures
            build_result_view(r) == build_spec(self@),
    {
        let name = match self.name {
            Some(n) => n,
            None => return Err(CredentialBuilderError::MissingName),
        };
        let username = match self.username {
            Some(u) => u,
            None => return Err(CredentialBuilderError::MissingUsername),
        };
        let password = match self.password {
            Some(p) => p,
            None => return Err(CredentialBuilderError::MissingPassword),
        };
        Ok(Credential { name, username, password, url: self.url })
    }
}

/// A builder that was given a name, a username and a password builds the
/// credential of exactly the fields it was given, the URL included when it
/// was set; without one of the three it builds nothing.
pub proof fn law_build_gives_back_fields(b: CredentialBuilderView)
    ensures
        (build_spec(b) is Ok) <==> (b.name is Some && b.username is Some && b.password is Some),
        build_spec(b) matches Ok(c) ==> {
            &&& Some(c.name) == b.name
            &&& Some(c.username) == b.username
            &&& Some(c.password) == b.password
            &&& c.url == b.url
        },
{
}

} // verus!
