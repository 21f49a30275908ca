//! Pool settings.
use vstd::prelude::*;

verus! {

/// The settings of a [`crate::Pool`].
#[derive(Clone, Copy, Debug, PartialEq, Eq)]
pub struct Config {
    /// The number of resources the pool keeps alive.
    pub pool_size: u32,
    /// The number of helper workers that create resources in the background.
    pub helper_tasks: u32,
    /// Whether a resource is validated before it is handed out.
    pub test_on_check_out: bool,
}

/// Why a [`Config`] was rejected.
#[derive(Clone, Copy, Debug, PartialEq, Eq)]
pub enum ConfigError {
    /// `pool_size` was zero.
    ZeroPoolSize,
    /// `helper_tasks` was zero.
    ZeroHelperTasks,
}

impl Config {
    /// A configuration is usable when both counts are positive.
    pub open spec fn is_valid(self) -> bool {
        self.pool_size > 0 && self.helper_tasks > 0
    }

    /// Checks that the configuration is usable.
    ///
    /// A zero pool size is reported before a zero helper count.
    pub fn validate(&self) -> (r: Result<(), ConfigError>)
        ensures
            r is Ok <==> self.is_valid(),
            self.pool_size == 0 ==> r == Err::<(), ConfigError>(ConfigError::ZeroPoolSize),
            self.pool_size > 0 && self.helper_tasks == 0 ==> r == Err::<(), ConfigError>(
                ConfigError::ZeroHelperTasks,
            ),
    {
        if self.pool_size == 0 {
            Err(ConfigError::ZeroPoolSize)
        } else if self.helper_tasks == 0 {
            Err(ConfigError::ZeroHelperTasks)
        } else {
            Ok(())
        }
    }
}

impl ConfigError {
    /// A short description of the error.
    pub fn description(&self) -> (r: String)
        ensures
            *self == ConfigError::ZeroPoolSize ==> r@ == "pool_size must be positive"@,
            *self == ConfigError::ZeroHelperTasks ==> r@ == "helper_tasks must be positive"@,
    {
        match self {
            ConfigError::ZeroPoolSize => String::from_str("pool_size must be positive"),
            ConfigError::ZeroHelperTasks => String::from_str("helper_tasks must be positive"),
        }
    }
}

impl Default for Config {
    /// Ten resources, three helper workers, validation on checkout.
    fn default() -> (r: Config)
        ensures
            r.pool_size == 10,
            r.helper_tasks == 3,
            r.test_on_check_out,
    {
        Config { pool_size: 10, helper_tasks: 3, test_on_check_out: true }
    }
}

} // verus!
