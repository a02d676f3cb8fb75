//! Context assembly: the named providers whose values fill a template.
use vstd::prelude::*;
use crate::config::AppError;
use crate::weather::AppWeatherConfig;

verus! {

/// A configuration section that belongs to a named context provider.
pub trait ContextConfig {
    fn name() -> &'static str;
}

impl ContextConfig for AppWeatherConfig {
    fn name() -> &'static str {
        "weather"
    }
}

/// The registered context providers.
#[derive(Clone, Copy, Debug, PartialEq, Eq, Structural)]
pub enum ContextProvider {
    Weather,
}

pub open spec fn provider_named(name: Seq<char>) -> Option<ContextProvider> {
    if name == "weather"@ {
        Some(ContextProvider::Weather)
    } else {
        None
    }
}

/// The provider registered under `name`.
pub fn provider_by_name(name: &str) -> (r: Option<ContextProvider>)
    ensures
        r == provider_named(name@),
{
    let weather = "weather".to_owned();
    if name.to_owned() == weather {
        Some(ContextProvider::Weather)
    } else {
        None
    }
}

/// The providers for `names`, in order; the first name without a provider
/// fails the whole assembly.
pub fn resolve_providers(names: &Vec<String>) -> (r: Result<Vec<ContextProvider>, AppError>)
    ensures
        r is Ok <==> forall|i: int| 0 <= i < names@.len() ==> provider_named(#[trigger] names@[i]@) is Some,
        r matches Ok(ps) ==> ps@.len() == names@.len()
            && forall|i: int| 0 <= i < names@.len() ==> Some(#[trigger] ps@[i]) == provider_named(names@[i]@),
        r matches Err(e) ==> exists|i: int| 0 <= i < names@.len() && provider_named(#[trigger] names@[i]@) is None
            && (forall|j: int| 0 <= j < i ==> provider_named(#[trigger] names@[j]@) is Some)
            && (e matches AppError::UnexpectedError(m) && m@ == "Unknown context: "@ + names@[i]@),
{
    let mut providers: Vec<ContextProvider> = Vec::new();
    let mut i: usize = 0;
    while i < names.len()
        invariant
            i <= names@.len(),
            providers@.len() == i,
            forall|j: int| 0 <= j < i ==> Some(#[trigger] providers@[j]) == provider_named(names@[j]@),
        decreases names@.len() - i,
    {
        match provider_by_name(names[i].as_str()) {
            Some(p) => providers.push(p),
            None => {
                let mut m = "Unknown context: ".to_owned();
                m.append(names[i].as_str());
                assert(provider_named(names@[i as int]@) is None);
                assert forall|j: int| 0 <= j < i implies provider_named(#[trigger] names@[j]@) is Some by {
                    assert(Some(providers@[j]) == provider_named(names@[j]@));
                }
                return Err(AppError::UnexpectedError(m));
            },
        }
        i = i + 1;
    }
    assert forall|j: int| 0 <= j < names@.len() implies provider_named(#[trigger] names@[j]@) is Some by {
        assert(Some(providers@[j]) == provider_named(names@[j]@));
    }
    Ok(providers)
}

} // verus!
