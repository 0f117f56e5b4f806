//! Errors of reading from and writing to data sources.

use vstd::prelude::*;

verus! {

#[verifier::external_type_specification]
#[verifier::external_body]
pub struct ExIoError(std::io::Error);

/// Why a read failed.
#[derive(Debug)]
pub enum ReadError {
    /// A rule of the source refused the request.
    Custom(String),
    /// The underlying storage failed.
    IO(std::io::Error),
    /// A lock was poisoned.
    Panic(String),
}

/// Why a write failed.
#[derive(Debug)]
pub enum WriteError {
    /// A rule of the source refused the request.
    Custom(String),
    /// The underlying storage failed.
    IO(std::io::Error),
    /// A lock was poisoned.
    Panic(String),
}

impl ReadError {
    pub fn is_custom(&self) -> (b: bool)
        ensures
            b == (self is Custom),
    {
        match self {
            ReadError::Custom(_) => true,
            _ => false,
        }
    }

    pub fn is_io(&self) -> (b: bool)
        ensures
            b == (self is IO),
    {
        match self {
            ReadError::IO(_) => true,
            _ => false,
        }
    }

    pub fn is_panic(&self) -> (b: bool)
        ensures
            b == (self is Panic),
    {
        match self {
            ReadError::Panic(_) => true,
            _ => false,
        }
    }

    /// The same failure reported for a write.
    pub fn into_write(self) -> (w: WriteError)
        ensures
            match self {
                ReadError::Custom(m) => w == WriteError::Custom(m),
                ReadError::IO(e) => w == WriteError::IO(e),
                ReadError::Panic(m) => w == WriteError::Panic(m),
            },
    {
        match self {
            ReadError::Custom(m) => WriteError::Custom(m),
            ReadError::IO(e) => WriteError::IO(e),
            ReadError::Panic(m) => WriteError::Panic(m),
        }
    }
}

impl WriteError {
    pub fn is_custom(&self) -> (b: bool)
        ensures
            b == (self is Custom),
    {
        match self {
            WriteError::Custom(_) => true,
            _ => false,
        }
    }

    pub fn is_io(&self) -> (b: bool)
        ensures
            b == (self is IO),
    {
        match self {
            WriteError::IO(_) => true,
            _ => false,
        }
    }
}

} // verus!
