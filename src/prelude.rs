//! The types needed to use the calculators.
pub use crate::calculator::{Calculator, MemberCalculator};
pub use crate::channel::{ChannelType, PermissionOverwrite, PermissionOverwriteType};
pub use crate::error::Error;
pub use crate::id::{GuildId, RoleId, UserId};
pub use crate::member::MemberCalculatorError;
pub use crate::permissions::Permissions;
pub use crate::role::{RoleCalculator, RoleCalculatorError};
pub use std::collections::HashMap;
