//! Two-stage initialisation: an argument record is bound from a sub-table of
//! a configuration, and the target is derived from the record.

use vstd::prelude::*;
use crate::toml_parse::{
    bound_record, failed_as, field_mismatch_in, section_of, table_entries, ConfigError,
    ConfigErrorView, FromConfig, TableModel,
};

verus! {

/// The fields of an argument record were read, but do not go together.
#[derive(Debug, Clone, PartialEq, Eq)]
pub struct SemanticInvalid {
    pub message: String,
}

/// The result is a semantic failure.
pub open spec fn semantic_failure<A>(r: Result<A, ConfigError>) -> bool {
    r matches Err(e) && e@ is SemanticInvalid
}

/// Argument records, each tied to the one target that is made from it.
pub trait ArgsMethods: FromConfig {
    type Target;

    /// The target that the arguments determine, or nothing where their
    /// fields do not go together.
    spec fn target_of(&self) -> Option<Self::Target>;

    /// Derives the target from the arguments. The result depends on the
    /// arguments alone; a record whose fields do not go together is refused.
    fn initialize_target(&self) -> (r: Result<Self::Target, SemanticInvalid>)
        ensures
            match self.target_of() {
                Some(target) => r == Ok::<Self::Target, SemanticInvalid>(target),
                None => r is Err,
            },
    ;
}

/// The transformation is deterministic: equal arguments determine equal
/// targets, and are refused together.
pub proof fn lemma_target_deterministic<A: ArgsMethods>(a: A, b: A)
    requires
        a == b,
    ensures
        a.target_of() == b.target_of(),
{
}

/// The target that the sub-table `name` of `entries` determines: the one
/// derived from the record that is bound from it.
pub open spec fn initialized<A: ArgsMethods>(
    entries: TableModel,
    name: Seq<char>,
) -> Option<A::Target> {
    match bound_record::<A>(entries, name) {
        Some(args) => args.target_of(),
        None => None,
    }
}

/// What initialisation returns once the transformation's own outcome is
/// known: the target, or the semantic failure with its message.
pub fn derived<T>(outcome: Result<T, SemanticInvalid>) -> (r: Result<T, ConfigError>)
    ensures
        match outcome {
            Ok(target) => r == Ok::<T, ConfigError>(target),
            Err(invalid) => failed_as(
                r,
                ConfigErrorView::SemanticInvalid { message: invalid.message@ },
            ),
        },
{
    match outcome {
        Ok(target) => Ok(target),
        Err(invalid) => Err(ConfigError::SemanticInvalid { message: invalid.message }),
    }
}

/// Targets that are initialised from an argument record of type `T`.
pub trait TargetFromArgs<T>: Sized where T: ArgsMethods<Target = Self> {
    /// Initialises the target from its arguments.
    fn new(args: &T) -> (r: Result<Self, ConfigError>)
        ensures
            match args.target_of() {
                Some(target) => r == Ok::<Self, ConfigError>(target),
                None => semantic_failure(r),
            },
    {
        derived(args.initialize_target())
    }

    /// Initialises the target from the sub-table `config_name` of `config`:
    /// binds the argument record, then derives the target from it.
    fn from_config(config: &toml::map::Map<String, toml::Value>, config_name: &str) -> (r: Result<
        Self,
        ConfigError,
    >)
        ensures
            !table_entries(*config).contains_key(config_name@) ==> failed_as(
                r,
                ConfigErrorView::MissingSection { section: config_name@ },
            ),
            match section_of(table_entries(*config), config_name@) {
                Err(reason) => failed_as(r, reason),
                Ok(inner) => match T::record_of(inner) {
                    None => field_mismatch_in(r, config_name@),
                    Some(args) => args.target_of() is None ==> semantic_failure(r),
                },
            },
            match initialized::<T>(table_entries(*config), config_name@) {
                Some(target) => r == Ok::<Self, ConfigError>(target),
                None => r is Err,
            },
    {
        match T::from_config(config, config_name) {
            Err(e) => Err(e),
            Ok(args) => Self::new(&args),
        }
    }
}

} // verus!
