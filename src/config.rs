//! Settings read at startup that the control logic uses.

use vstd::prelude::*;

verus! {

/// Where the I/O controller is reached.
#[derive(Clone, Debug)]
pub struct Addresses {
    pub clear_core: String,
    pub addr: [u8; 4],
    pub port: u16,
}

/// The bowl presence sensor. The period is in milliseconds.
#[derive(Clone, Copy, Debug, PartialEq, Eq, Structural)]
pub struct PhotoEyeConfig {
    pub sample_period: u64,
    pub sample_number: usize,
    pub input_id: usize,
}

/// Overall time a dispense may take, in milliseconds.
#[derive(Clone, Copy, Debug, PartialEq, Eq, Structural)]
pub struct DispenseConfig {
    pub timeout: u64,
}

/// The operator PINs.
#[derive(Clone, Copy, Debug, PartialEq, Eq, Structural)]
pub struct Pins {
    pub sudo: usize,
    pub manager: usize,
    pub operator: usize,
}

/// Who may use the operator screen.
#[derive(Clone, Copy, Debug, PartialEq, Eq, Structural)]
pub enum User {
    NoUser,
    Admin,
    Manager,
    Operator,
}

impl Default for User {
    fn default() -> (u: Self)
        ensures
            u == User::NoUser,
    {
        User::NoUser
    }
}

/// What a PIN entry leads to.
#[derive(Clone, Copy, Debug, PartialEq, Eq, Structural)]
pub enum Login {
    /// The superuser PIN: leave the application.
    Exit,
    /// Continue as this user.
    As(User),
}

/// The result of entering `pin`; `None` stands for an entry that is not a number.
pub open spec fn login_of(pins: Pins, pin: Option<usize>) -> Login {
    match pin {
        Some(n) => if n == pins.sudo {
            Login::Exit
        } else if n == pins.manager {
            Login::As(User::Manager)
        } else if n == pins.operator {
            Login::As(User::Operator)
        } else {
            Login::As(User::NoUser)
        },
        None => Login::As(User::NoUser),
    }
}

/// Check an entered PIN against the configured ones.
pub fn log_in(pins: &Pins, pin: Option<usize>) -> (r: Login)
    ensures
        r == login_of(*pins, pin),
{
    match pin {
        Some(n) => if n == pins.sudo {
            Login::Exit
        } else if n == pins.manager {
            Login::As(User::Manager)
        } else if n == pins.operator {
            Login::As(User::Operator)
        } else {
            Login::As(User::NoUser)
        },
        None => Login::As(User::NoUser),
    }
}

} // verus!
