use vstd::prelude::*;

verus! {

/// The body of a login request.
#[derive(Clone, Debug, PartialEq, Eq)]
pub struct LoginRequest {
    pub email: String,
    pub password: String,
}

/// What a `LoginRequest` holds.
pub ghost struct LoginRequestView {
    pub email: Seq<char>,
    pub password: Seq<char>,
}

impl View for LoginRequest {
    type V = LoginRequestView;

    open spec fn view(&self) -> LoginRequestView {
        LoginRequestView { email: self.email@, password: self.password@ }
    }
}

/// The body that answers a login: the signed token.
#[derive(Clone, Debug, PartialEq, Eq)]
pub struct LoginResponse {
    pub token: String,
}

impl View for LoginResponse {
    type V = Seq<char>;

    open spec fn view(&self) -> Seq<char> {
        self.token@
    }
}

/// The body of a registration: the address, the display name, the
/// plaintext password and the role, `"agent"` or `"admin"`.
#[derive(Clone, Debug, PartialEq, Eq)]
pub struct RegisterRequest {
    pub email: String,
    pub name: String,
    pub password: String,
    pub role: String,
}

/// What a `RegisterRequest` holds.
pub ghost struct RegisterRequestView {
    pub email: Seq<char>,
    pub name: Seq<char>,
    pub password: Seq<char>,
    pub role: Seq<char>,
}

impl View for RegisterRequest {
    type V = RegisterRequestView;

    open spec fn view(&self) -> RegisterRequestView {
        RegisterRequestView {
            email: self.email@,
            name: self.name@,
            password: self.password@,
            role: self.role@,
        }
    }
}

} // verus!
