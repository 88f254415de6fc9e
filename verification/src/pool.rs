//! Sizing of a pool of bots: its configuration, and the capacities and
//! memory estimate derived from it. Running the bots (tasks, channels,
//! shared buffers) is the application's part.

use vstd::prelude::*;
use std::time::Duration;

verus! {

/// `Duration::from_millis` of std, given no contract: nothing is claimed of
/// the `Duration` it builds beyond its type.
pub assume_specification[ core::time::Duration::from_millis ](millis: u64) -> Duration;

#[derive(Debug, Clone, Copy)]
pub struct PoolConfig {
    pub max_concurrent: usize,
    pub max_auth_concurrent: usize,
    pub spawn_interval: Duration,
    pub command_buffer: usize,
    pub buffer_size: usize,
}

impl Default for PoolConfig {
    /// A hundred bots, three logging in at a time, half a second between
    /// spawns, sixty-four queued commands per bot, 16 KiB buffers.
    fn default() -> (r: Self)
        ensures
            r.max_concurrent == 100,
            r.max_auth_concurrent == 3,
            r.command_buffer == 64,
            r.buffer_size == 16 * 1024,
    {
        PoolConfig {
            max_concurrent: 100,
            max_auth_concurrent: 3,
            spawn_interval: Duration::from_millis(500),
            command_buffer: 64,
            buffer_size: 16 * 1024,
        }
    }
}

/// `a * b`, or `usize::MAX` when that does not fit.
pub open spec fn saturating_mul(a: usize, b: usize) -> usize {
    if a * b > usize::MAX {
        usize::MAX
    } else {
        (a * b) as usize
    }
}

/// `a + b`, or `usize::MAX` when that does not fit.
pub open spec fn saturating_add(a: usize, b: usize) -> usize {
    if a + b > usize::MAX {
        usize::MAX
    } else {
        (a + b) as usize
    }
}

pub open spec fn at_least_one(n: usize) -> usize {
    if n == 0 {
        1
    } else {
        n
    }
}

fn mul_saturating(a: usize, b: usize) -> (r: usize)
    ensures
        r == saturating_mul(a, b),
{
    if b != 0 && a > usize::MAX / b {
        proof {
            assert(a * b > usize::MAX) by (nonlinear_arith)
                requires
                    b > 0,
                    a > usize::MAX / b,
            ;
        }
        usize::MAX
    } else {
        proof {
            if b != 0 {
                assert(a * b <= usize::MAX) by (nonlinear_arith)
                    requires
                        b > 0,
                        a <= usize::MAX / b,
                ;
            }
        }
        a * b
    }
}

fn add_saturating(a: usize, b: usize) -> (r: usize)
    ensures
        r == saturating_add(a, b),
{
    if a > usize::MAX - b {
        usize::MAX
    } else {
        a + b
    }
}

impl PoolConfig {
    /// Buffers the shared pool holds: four per bot, at least one.
    pub fn buffer_pool_size(&self) -> (r: usize)
        ensures
            r == at_least_one(saturating_mul(self.max_concurrent, 4)),
    {
        let size: usize = mul_saturating(self.max_concurrent, 4);
        if size == 0 {
            1
        } else {
            size
        }
    }

    /// Logins allowed at once: the configured number, at least one.
    pub fn auth_permits(&self) -> (r: usize)
        ensures
            r == at_least_one(self.max_auth_concurrent),
    {
        if self.max_auth_concurrent == 0 {
            1
        } else {
            self.max_auth_concurrent
        }
    }

    /// Commands a bot's channel holds: the configured number, at least one.
    pub fn command_channel_capacity(&self) -> (r: usize)
        ensures
            r == at_least_one(self.command_buffer),
    {
        if self.command_buffer == 0 {
            1
        } else {
            self.command_buffer
        }
    }
}

/// The heap estimate of a pool: 128 KiB per active bot plus every pooled
/// buffer, each sum and product saturating.
pub fn heap_bytes_estimated(bots_active: usize, pool_capacity: usize, buf_size: usize) -> (r: usize)
    ensures
        r == saturating_add(saturating_mul(bots_active, 131072usize), saturating_mul(pool_capacity, buf_size)),
{
    add_saturating(mul_saturating(bots_active, 128 * 1024), mul_saturating(pool_capacity, buf_size))
}

} // verus!
