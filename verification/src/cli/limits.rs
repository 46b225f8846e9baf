//! Memory and CPU limits for batch work.
use vstd::prelude::*;
use crate::text::{decimal, push_decimal};
use vstd::string::*;

verus! {

/// Memory limit tracker
pub struct MemoryLimit {
    max_bytes: Option<u64>,
    current_bytes: u64,
}

/// Refusal of a memory reservation.
#[derive(Debug, Clone, Copy, PartialEq, Eq, Structural)]
pub enum LimitError {
    /// Adding the requested bytes would exceed the configured maximum.
    MemoryLimitExceeded {
        /// The configured maximum in bytes.
        max: u64,
    },
}

impl LimitError {
    /// The message shown for this error.
    pub fn message(&self) -> (r: String)
        ensures
            match *self {
                LimitError::MemoryLimitExceeded { max } => r@ == "Memory limit exceeded: "@
                    + decimal(max as nat) + " bytes"@,
            },
    {
        match self {
            LimitError::MemoryLimitExceeded { max } => {
                let mut s = "Memory limit exceeded: ".to_owned();
                push_decimal(&mut s, *max);
                s.append(" bytes");
                s
            },
        }
    }
}

impl MemoryLimit {
    /// The configured maximum, if any.
    pub closed spec fn limit(&self) -> Option<u64> {
        self.max_bytes
    }

    /// Bytes recorded so far.
    pub closed spec fn usage(&self) -> u64 {
        self.current_bytes
    }

    /// Create a new memory limit tracker
    pub fn new(max_bytes: Option<u64>) -> (r: Self)
        ensures
            r.limit() == max_bytes,
            r.usage() == 0,
    {
        MemoryLimit { max_bytes, current_bytes: 0 }
    }

    /// Check if adding more bytes would exceed the limit (a sum past
    /// `u64::MAX` exceeds any limit)
    pub fn check(&self, additional_bytes: u64) -> (r: Result<(), LimitError>)
        ensures
            match self.limit() {
                Some(max) => if self.usage() + additional_bytes > max {
                    r == Err::<(), LimitError>(LimitError::MemoryLimitExceeded { max })
                } else {
                    r.is_ok()
                },
                None => r.is_ok(),
            },
    {
        if let Some(max) = self.max_bytes {
            match self.current_bytes.checked_add(additional_bytes) {
                Some(total) => {
                    if total > max {
                        return Err(LimitError::MemoryLimitExceeded { max });
                    }
                },
                None => {
                    return Err(LimitError::MemoryLimitExceeded { max });
                },
            }
        }
        Ok(())
    }

    /// Add bytes to the current usage (wrapping, as an atomic add does)
    pub fn add(&mut self, bytes: u64)
        ensures
            final(self).limit() == old(self).limit(),
            final(self).usage() == vstd::wrapping::u64_specs::wrapping_add(old(self).usage(), bytes),
    {
        self.current_bytes = self.current_bytes.wrapping_add(bytes);
    }

    /// Get current memory usage
    pub fn current(&self) -> (r: u64)
        ensures
            r == self.usage(),
    {
        self.current_bytes
    }

    /// The configured maximum in bytes, if any.
    pub fn max_bytes(&self) -> (r: Option<u64>)
        ensures
            r == self.limit(),
    {
        self.max_bytes
    }

    /// Check if a limit is set
    pub fn is_enabled(&self) -> (r: bool)
        ensures
            r == self.limit().is_some(),
    {
        self.max_bytes.is_some()
    }
}

/// CPU limit configuration
#[derive(Debug, Clone, Copy)]
pub struct CpuLimit {
    max_cores: Option<usize>,
}

impl CpuLimit {
    /// The configured core maximum, if any.
    pub closed spec fn limit(&self) -> Option<usize> {
        self.max_cores
    }

    /// Create a new CPU limit configuration
    pub fn new(max_cores: Option<usize>) -> (r: Self)
        ensures
            r.limit() == max_cores,
    {
        CpuLimit { max_cores }
    }

    /// Get the maximum number of cores to use
    pub fn max_cores(&self) -> (r: Option<usize>)
        ensures
            r == self.limit(),
    {
        self.max_cores
    }

    /// Apply CPU limit by returning the effective parallelism
    pub fn effective_parallelism(&self, default: usize) -> (r: usize)
        ensures
            r == match self.limit() {
                Some(max) => if default <= max { default } else { max },
                None => default,
            },
    {
        match self.max_cores {
            Some(max) => if default <= max { default } else { max },
            None => default,
        }
    }

    /// Check if a limit is set
    pub fn is_enabled(&self) -> (r: bool)
        ensures
            r == self.limit().is_some(),
    {
        self.max_cores.is_some()
    }
}

} // verus!
