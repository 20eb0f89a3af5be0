//! The options that the host chooses, and the shape in which the engine
//! takes them.
use vstd::prelude::*;

verus! {

/// What a [`PhpPagefindServiceConfig`] holds.
pub struct ServiceConfigView {
    pub keep_url: bool,
    pub verbose: bool,
    pub fallback_language: Seq<char>,
}

/// The indexing options as the host states them. Nothing but the types is
/// looked at here: whether a combination makes sense is for the engine to say.
#[derive(Debug)]
pub struct PhpPagefindServiceConfig {
    keep_url: bool,
    verbose: bool,
    fallback_language: String,
}

impl View for PhpPagefindServiceConfig {
    type V = ServiceConfigView;

    closed spec fn view(&self) -> ServiceConfigView {
        ServiceConfigView {
            keep_url: self.keep_url,
            verbose: self.verbose,
            fallback_language: self.fallback_language@,
        }
    }
}

/// What an [`EngineOptions`] holds.
pub struct EngineOptionsView {
    pub keep_index_url: bool,
    pub force_language: Seq<char>,
    pub verbose: bool,
}

/// The options in the engine's own shape.
#[derive(Debug)]
pub struct EngineOptions {
    pub keep_index_url: bool,
    pub force_language: String,
    pub verbose: bool,
}

impl View for EngineOptions {
    type V = EngineOptionsView;

    open spec fn view(&self) -> EngineOptionsView {
        EngineOptionsView {
            keep_index_url: self.keep_index_url,
            force_language: self.force_language@,
            verbose: self.verbose,
        }
    }
}

/// The language that stands in where the host names none.
pub open spec fn default_language() -> Seq<char> {
    "en"@
}

/// The fallback language of a configuration made with `chosen`.
pub open spec fn language_or_default(chosen: Option<String>) -> Seq<char> {
    match chosen {
        Some(language) => language@,
        None => default_language(),
    }
}

/// The engine's options for a configuration: the URL flag and the language
/// under the engine's names, the verbosity as it is.
pub open spec fn engine_options(config: ServiceConfigView) -> EngineOptionsView {
    EngineOptionsView {
        keep_index_url: config.keep_url,
        force_language: config.fallback_language,
        verbose: config.verbose,
    }
}

impl PhpPagefindServiceConfig {
    /// A configuration with the given options; the fallback language is
    /// `"en"` where none is given.
    pub fn __construct(keep_url: bool, verbose: bool, fallback_language: Option<String>) -> (config:
        Self)
        ensures
            config@ == (ServiceConfigView {
                keep_url,
                verbose,
                fallback_language: language_or_default(fallback_language),
            }),
    {
        let language = match fallback_language {
            Some(language) => language,
            None => String::from_str("en"),
        };
        PhpPagefindServiceConfig { keep_url, verbose, fallback_language: language }
    }

    pub fn keep_url(&self) -> (keep_url: bool)
        ensures
            keep_url == self@.keep_url,
    {
        self.keep_url
    }

    pub fn verbose(&self) -> (verbose: bool)
        ensures
            verbose == self@.verbose,
    {
        self.verbose
    }

    pub fn fallback_language(&self) -> (language: String)
        ensures
            language@ == self@.fallback_language,
    {
        self.fallback_language.clone()
    }

    /// The options to instantiate the engine with.
    pub fn engine_options(&self) -> (options: EngineOptions)
        ensures
            options@ == engine_options(self@),
    {
        EngineOptions {
            keep_index_url: self.keep_url,
            force_language: self.fallback_language.clone(),
            verbose: self.verbose,
        }
    }
}

} // verus!
