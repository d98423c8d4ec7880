//! The local control socket of a daemon: what its file is called, and whether
//! a path will do for it.

use vstd::prelude::*;

verus! {

/// The text of one decimal digit.
pub open spec fn digit_text(digit: nat) -> Seq<char> {
    if digit == 0 {
        "0"@
    } else if digit == 1 {
        "1"@
    } else if digit == 2 {
        "2"@
    } else if digit == 3 {
        "3"@
    } else if digit == 4 {
        "4"@
    } else if digit == 5 {
        "5"@
    } else if digit == 6 {
        "6"@
    } else if digit == 7 {
        "7"@
    } else if digit == 8 {
        "8"@
    } else {
        "9"@
    }
}

/// A number in decimal digits, without leading zeros.
pub open spec fn decimal_text(n: nat) -> Seq<char>
    decreases n,
{
    if n < 10 {
        digit_text(n)
    } else {
        decimal_text(n / 10) + digit_text(n % 10)
    }
}

/// The name of the socket file of the daemon of a group: the group's name
/// before `.sock`, and `_` in its place where the group has no name.
pub open spec fn daemon_socket_text(daemon_group: Seq<char>) -> Seq<char> {
    if daemon_group.len() == 0 {
        "_.sock"@
    } else {
        daemon_group + ".sock"@
    }
}

/// The name of the socket file of one process of a group: the group's name,
/// `_`, the process id in decimal, and `.sock`.
pub open spec fn unique_socket_text(daemon_group: Seq<char>, pid: nat) -> Seq<char> {
    daemon_group + "_"@ + decimal_text(pid) + ".sock"@
}

fn digit_str(digit: u32) -> (text: &'static str)
    requires
        digit < 10,
    ensures
        text@ == digit_text(digit as nat),
{
    if digit == 0 {
        "0"
    } else if digit == 1 {
        "1"
    } else if digit == 2 {
        "2"
    } else if digit == 3 {
        "3"
    } else if digit == 4 {
        "4"
    } else if digit == 5 {
        "5"
    } else if digit == 6 {
        "6"
    } else if digit == 7 {
        "7"
    } else if digit == 8 {
        "8"
    } else {
        "9"
    }
}

/// Writes a number in decimal digits.
pub fn decimal(n: u32) -> (text: String)
    ensures
        text@ == decimal_text(n as nat),
    decreases n,
{
    if n < 10 {
        String::from_str(digit_str(n))
    } else {
        decimal(n / 10).concat(digit_str(n % 10))
    }
}

/// The name of the socket file of the daemon of `daemon_group`.
pub fn daemon_socket_name(daemon_group: &str) -> (name: String)
    ensures
        name@ == daemon_socket_text(daemon_group@),
{
    if daemon_group.is_empty() {
        String::from_str("_.sock")
    } else {
        String::from_str(daemon_group).concat(".sock")
    }
}

/// The name of the socket file of the process `pid` of `daemon_group`.
pub fn unique_socket_name(daemon_group: &str, pid: u32) -> (name: String)
    ensures
        name@ == unique_socket_text(daemon_group@, pid as nat),
{
    let number = decimal(pid);
    String::from_str(daemon_group).concat("_").concat(number.as_str()).concat(".sock")
}

/// Why a path will not do for a control socket.
#[derive(Clone, Copy, Debug, PartialEq, Eq)]
pub enum SocketPathError {
    /// Something is at the path already.
    AlreadyExists,
    /// The path is not absolute.
    NotAbsolute,
}

impl SocketPathError {
    /// What is wrong with the path, to be said after the path itself.
    pub open spec fn text(self) -> Seq<char> {
        match self {
            SocketPathError::AlreadyExists => "already exists"@,
            SocketPathError::NotAbsolute => "is not absolute"@,
        }
    }

    /// What is wrong with the path, to be said after the path itself.
    pub fn reason(&self) -> (text: &'static str)
        ensures
            text@ == self.text(),
    {
        match self {
            SocketPathError::AlreadyExists => "already exists",
            SocketPathError::NotAbsolute => "is not absolute",
        }
    }
}

/// Whether a path will do for a control socket: nothing may be at it, and it
/// has to be absolute. That something is there is said first.
pub open spec fn socket_path_verdict(exists: bool, has_root: bool) -> Result<(), SocketPathError> {
    if exists {
        Err(SocketPathError::AlreadyExists)
    } else if !has_root {
        Err(SocketPathError::NotAbsolute)
    } else {
        Ok(())
    }
}

/// Says whether a path will do for a control socket, given whether something
/// is at it and whether it is absolute.
pub fn check_socket_path(exists: bool, has_root: bool) -> (checked: Result<(), SocketPathError>)
    ensures
        checked == socket_path_verdict(exists, has_root),
{
    if exists {
        return Err(SocketPathError::AlreadyExists);
    }
    if !has_root {
        return Err(SocketPathError::NotAbsolute);
    }
    Ok(())
}

} // verus!
