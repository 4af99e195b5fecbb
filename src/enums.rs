//! The enumerated settings. `Target`, `Module` and `Lib` are open: text
//! outside the known set is kept, upper-cased, in `Other`. `Jsx` and
//! `ModuleResolutionMode` are closed.
use vstd::prelude::*;

verus! {

/// The upper-cased form of a text, as std's `str::to_uppercase` gives it.
pub uninterp spec fn upper_of(s: Seq<char>) -> Seq<char>;

/// Relies on str::to_uppercase: the result depends on the characters alone.
#[verifier::external_body]
fn to_upper(s: &str) -> (r: String)
    ensures
        r@ == upper_of(s@),
{
    s.to_uppercase()
}

/// Whether the text `u` is the text `lit`.
fn text_is(u: &str, lit: &str) -> (r: bool)
    ensures
        r == (u@ == lit@),
{
    String::from_str(u) == String::from_str(lit)
}

/// The language level that output is compiled for.
#[derive(Debug, Clone, PartialEq, Eq)]
pub enum Target {
    Es3,
    Es5,
    Es2015,
    Es6,
    Es2016,
    Es7,
    Es2017,
    Es2018,
    Es2019,
    Es2020,
    EsNext,
    /// A value outside the known set, upper-cased.
    Other(String),
}

/// The known targets, by upper-cased name.
pub open spec fn known_target(u: Seq<char>) -> Option<Target> {
    if u == "ES3"@ {
        Some(Target::Es3)
    } else if u == "ES5"@ {
        Some(Target::Es5)
    } else if u == "ES2015"@ {
        Some(Target::Es2015)
    } else if u == "ES6"@ {
        Some(Target::Es6)
    } else if u == "ES2016"@ {
        Some(Target::Es2016)
    } else if u == "ES7"@ {
        Some(Target::Es7)
    } else if u == "ES2017"@ {
        Some(Target::Es2017)
    } else if u == "ES2018"@ {
        Some(Target::Es2018)
    } else if u == "ES2019"@ {
        Some(Target::Es2019)
    } else if u == "ES2020"@ {
        Some(Target::Es2020)
    } else if u == "ESNEXT"@ {
        Some(Target::EsNext)
    } else {
        None
    }
}

impl Target {
    /// Picks the variant for the upper-cased text `u`; unknown text is kept
    /// in `Other`.
    pub fn from_uppercase(u: &str) -> (r: Target)
        ensures
            match known_target(u@) {
                Some(k) => r == k,
                None => r matches Target::Other(s) && s@ == u@,
            },
    {
        if text_is(u, "ES3") {
            Target::Es3
        } else if text_is(u, "ES5") {
            Target::Es5
        } else if text_is(u, "ES2015") {
            Target::Es2015
        } else if text_is(u, "ES6") {
            Target::Es6
        } else if text_is(u, "ES2016") {
            Target::Es2016
        } else if text_is(u, "ES7") {
            Target::Es7
        } else if text_is(u, "ES2017") {
            Target::Es2017
        } else if text_is(u, "ES2018") {
            Target::Es2018
        } else if text_is(u, "ES2019") {
            Target::Es2019
        } else if text_is(u, "ES2020") {
            Target::Es2020
        } else if text_is(u, "ESNEXT") {
            Target::EsNext
        } else {
            Target::Other(String::from_str(u))
        }
    }

    /// Reads a configuration value, compared without regard to case.
    pub fn parse(s: &str) -> (r: Target)
        ensures
            match known_target(upper_of(s@)) {
                Some(k) => r == k,
                None => r matches Target::Other(o) && o@ == upper_of(s@),
            },
    {
        let u = to_upper(s);
        Target::from_uppercase(u.as_str())
    }
}

/// A library of declarations to include.
#[derive(Debug, Clone, PartialEq, Eq)]
pub enum Lib {
    Es5,
    Es2015,
    Es6,
    Es2016,
    Es7,
    Es2017,
    Es2018,
    Es2019,
    Es2020,
    EsNext,
    Dom,
    WebWorker,
    ScriptHost,
    DomIterable,
    Es2015Core,
    Es2015Generator,
    Es2015Iterable,
    Es2015Promise,
    Es2015Proxy,
    Es2015Reflect,
    Es2015Symbol,
    Es2015SymbolWellKnown,
    Es2016ArrayInclude,
    Es2017Object,
    Es2017Intl,
    Es2017SharedMemory,
    Es2017String,
    Es2017TypedArrays,
    Es2018Intl,
    Es2018Promise,
    Es2018RegExp,
    Es2019Array,
    Es2019Object,
    Es2019String,
    Es2019Symbol,
    Es2020String,
    Es2020SymbolWellknown,
    EsNextAsyncIterable,
    EsNextArray,
    EsNextIntl,
    EsNextSymbol,
    /// A value outside the known set, upper-cased.
    Other(String),
}

/// The known libraries, by upper-cased name; four older spellings are
/// accepted beside the current ones.
pub open spec fn known_lib(u: Seq<char>) -> Option<Lib> {
    if u == "ES5"@ {
        Some(Lib::Es5)
    } else if u == "ES2015"@ {
        Some(Lib::Es2015)
    } else if u == "ES6"@ {
        Some(Lib::Es6)
    } else if u == "ES2016"@ {
        Some(Lib::Es2016)
    } else if u == "ES7"@ {
        Some(Lib::Es7)
    } else if u == "ES2017"@ {
        Some(Lib::Es2017)
    } else if u == "ES2018"@ {
        Some(Lib::Es2018)
    } else if u == "ES2019"@ {
        Some(Lib::Es2019)
    } else if u == "ES2020"@ {
        Some(Lib::Es2020)
    } else if u == "ESNEXT"@ {
        Some(Lib::EsNext)
    } else if u == "DOM"@ {
        Some(Lib::Dom)
    } else if u == "WEBWORKER"@ {
        Some(Lib::WebWorker)
    } else if u == "SCRIPTHOST"@ {
        Some(Lib::ScriptHost)
    } else if u == "DOM.ITERABLE"@ {
        Some(Lib::DomIterable)
    } else if u == "ES2015.CORE"@ {
        Some(Lib::Es2015Core)
    } else if u == "ES2015.GENERATOR"@ {
        Some(Lib::Es2015Generator)
    } else if u == "ES2015.ITERABLE"@ {
        Some(Lib::Es2015Iterable)
    } else if u == "ES2015.PROMISE"@ {
        Some(Lib::Es2015Promise)
    } else if u == "ES2015.PROXY"@ {
        Some(Lib::Es2015Proxy)
    } else if u == "ES2015.REFLECT"@ {
        Some(Lib::Es2015Reflect)
    } else if u == "ES2015.SYMBOL"@ {
        Some(Lib::Es2015Symbol)
    } else if u == "ES2015.SYMBOL.WELLKNOWN"@ {
        Some(Lib::Es2015SymbolWellKnown)
    } else if u == "ES2016.ARRAY.INCLUDE"@ {
        Some(Lib::Es2016ArrayInclude)
    } else if u == "ES2017.OBJECT"@ {
        Some(Lib::Es2017Object)
    } else if u == "ES2017.INTL"@ {
        Some(Lib::Es2017Intl)
    } else if u == "ES2017.SHAREDMEMORY"@ {
        Some(Lib::Es2017SharedMemory)
    } else if u == "ES2017.STRING"@ {
        Some(Lib::Es2017String)
    } else if u == "ES2017.TYPEDARRAYS"@ {
        Some(Lib::Es2017TypedArrays)
    } else if u == "ES2018.INTL"@ {
        Some(Lib::Es2018Intl)
    } else if u == "ES2018.PROMISE"@ {
        Some(Lib::Es2018Promise)
    } else if u == "ES2018.REGEXP"@ {
        Some(Lib::Es2018RegExp)
    } else if u == "ES2019.ARRAY"@ {
        Some(Lib::Es2019Array)
    } else if u == "ES2019.OBJECT"@ {
        Some(Lib::Es2019Object)
    } else if u == "ES2019.STRING"@ {
        Some(Lib::Es2019String)
    } else if u == "ES2019.SYMBOL"@ {
        Some(Lib::Es2019Symbol)
    } else if u == "ES2020.STRING"@ {
        Some(Lib::Es2020String)
    } else if u == "ES2020.SYMBOL.WELLKNOWN"@ {
        Some(Lib::Es2020SymbolWellknown)
    } else if u == "ESNEXT.ASYNCITERABLE"@ {
        Some(Lib::EsNextAsyncIterable)
    } else if u == "ESNEXT.ARRAY"@ {
        Some(Lib::EsNextArray)
    } else if u == "ESNEXT.INTL"@ {
        Some(Lib::EsNextIntl)
    } else if u == "ESNEXT.SYMBOL"@ {
        Some(Lib::EsNextSymbol)
    } else if u == "ES2015.ARRAY.INCLUDE"@ {
        Some(Lib::Es2016ArrayInclude)
    } else if u == "ES2015.OBJECT"@ {
        Some(Lib::Es2017Object)
    } else if u == "ES2017INTL"@ {
        Some(Lib::Es2017Intl)
    } else if u == "ES2015.SHAREDMEMORY"@ {
        Some(Lib::Es2017SharedMemory)
    } else {
        None
    }
}

impl Lib {
    /// Picks the variant for the upper-cased text `u`; unknown text is kept
    /// in `Other`.
    pub fn from_uppercase(u: &str) -> (r: Lib)
        ensures
            match known_lib(u@) {
                Some(k) => r == k,
                None => r matches Lib::Other(s) && s@ == u@,
            },
    {
        if text_is(u, "ES5") {
            Lib::Es5
        } else if text_is(u, "ES2015") {
            Lib::Es2015
        } else if text_is(u, "ES6") {
            Lib::Es6
        } else if text_is(u, "ES2016") {
            Lib::Es2016
        } else if text_is(u, "ES7") {
            Lib::Es7
        } else if text_is(u, "ES2017") {
            Lib::Es2017
        } else if text_is(u, "ES2018") {
            Lib::Es2018
        } else if text_is(u, "ES2019") {
            Lib::Es2019
        } else if text_is(u, "ES2020") {
            Lib::Es2020
        } else if text_is(u, "ESNEXT") {
            Lib::EsNext
        } else if text_is(u, "DOM") {
            Lib::Dom
        } else if text_is(u, "WEBWORKER") {
            Lib::WebWorker
        } else if text_is(u, "SCRIPTHOST") {
            Lib::ScriptHost
        } else if text_is(u, "DOM.ITERABLE") {
            Lib::DomIterable
        } else if text_is(u, "ES2015.CORE") {
            Lib::Es2015Core
        } else if text_is(u, "ES2015.GENERATOR") {
            Lib::Es2015Generator
        } else if text_is(u, "ES2015.ITERABLE") {
            Lib::Es2015Iterable
        } else if text_is(u, "ES2015.PROMISE") {
            Lib::Es2015Promise
        } else if text_is(u, "ES2015.PROXY") {
            Lib::Es2015Proxy
        } else if text_is(u, "ES2015.REFLECT") {
            Lib::Es2015Reflect
        } else if text_is(u, "ES2015.SYMBOL") {
            Lib::Es2015Symbol
        } else if text_is(u, "ES2015.SYMBOL.WELLKNOWN") {
            Lib::Es2015SymbolWellKnown
        } else if text_is(u, "ES2016.ARRAY.INCLUDE") {
            Lib::Es2016ArrayInclude
        } else if text_is(u, "ES2017.OBJECT") {
            Lib::Es2017Object
        } else if text_is(u, "ES2017.INTL") {
            Lib::Es2017Intl
        } else if text_is(u, "ES2017.SHAREDMEMORY") {
            Lib::Es2017SharedMemory
        } else if text_is(u, "ES2017.STRING") {
            Lib::Es2017String
        } else if text_is(u, "ES2017.TYPEDARRAYS") {
            Lib::Es2017TypedArrays
        } else if text_is(u, "ES2018.INTL") {
            Lib::Es2018Intl
        } else if text_is(u, "ES2018.PROMISE") {
            Lib::Es2018Promise
        } else if text_is(u, "ES2018.REGEXP") {
            Lib::Es2018RegExp
        } else if text_is(u, "ES2019.ARRAY") {
            Lib::Es2019Array
        } else if text_is(u, "ES2019.OBJECT") {
            Lib::Es2019Object
        } else if text_is(u, "ES2019.STRING") {
            Lib::Es2019String
        } else if text_is(u, "ES2019.SYMBOL") {
            Lib::Es2019Symbol
        } else if text_is(u, "ES2020.STRING") {
            Lib::Es2020String
        } else if text_is(u, "ES2020.SYMBOL.WELLKNOWN") {
            Lib::Es2020SymbolWellknown
        } else if text_is(u, "ESNEXT.ASYNCITERABLE") {
            Lib::EsNextAsyncIterable
        } else if text_is(u, "ESNEXT.ARRAY") {
            Lib::EsNextArray
        } else if text_is(u, "ESNEXT.INTL") {
            Lib::EsNextIntl
        } else if text_is(u, "ESNEXT.SYMBOL") {
            Lib::EsNextSymbol
        } else if text_is(u, "ES2015.ARRAY.INCLUDE") {
            Lib::Es2016ArrayInclude
        } else if text_is(u, "ES2015.OBJECT") {
            Lib::Es2017Object
        } else if text_is(u, "ES2017INTL") {
            Lib::Es2017Intl
        } else if text_is(u, "ES2015.SHAREDMEMORY") {
            Lib::Es2017SharedMemory
        } else {
            Lib::Other(String::from_str(u))
        }
    }

    /// Reads a configuration value, compared without regard to case.
    pub fn parse(s: &str) -> (r: Lib)
        ensures
            match known_lib(upper_of(s@)) {
                Some(k) => r == k,
                None => r matches Lib::Other(o) && o@ == upper_of(s@),
            },
    {
        let u = to_upper(s);
        Lib::from_uppercase(u.as_str())
    }
}

/// The module system of the output.
#[derive(Debug, Clone, PartialEq, Eq)]
pub enum Module {
    CommonJs,
    Es6,
    Es2015,
    Es2020,
    NoModule,
    Umd,
    Amd,
    System,
    EsNext,
    /// A value outside the known set, upper-cased.
    Other(String),
}

/// The known module systems, by upper-cased name.
pub open spec fn known_module(u: Seq<char>) -> Option<Module> {
    if u == "COMMONJS"@ {
        Some(Module::CommonJs)
    } else if u == "ES6"@ {
        Some(Module::Es6)
    } else if u == "ES2015"@ {
        Some(Module::Es2015)
    } else if u == "ES2020"@ {
        Some(Module::Es2020)
    } else if u == "NONE"@ {
        Some(Module::NoModule)
    } else if u == "UMD"@ {
        Some(Module::Umd)
    } else if u == "AMD"@ {
        Some(Module::Amd)
    } else if u == "SYSTEM"@ {
        Some(Module::System)
    } else if u == "ESNEXT"@ {
        Some(Module::EsNext)
    } else {
        None
    }
}

impl Module {
    /// Picks the variant for the upper-cased text `u`; unknown text is kept
    /// in `Other`.
    pub fn from_uppercase(u: &str) -> (r: Module)
        ensures
            match known_module(u@) {
                Some(k) => r == k,
                None => r matches Module::Other(s) && s@ == u@,
            },
    {
        if text_is(u, "COMMONJS") {
            Module::CommonJs
        } else if text_is(u, "ES6") {
            Module::Es6
        } else if text_is(u, "ES2015") {
            Module::Es2015
        } else if text_is(u, "ES2020") {
            Module::Es2020
        } else if text_is(u, "NONE") {
            Module::NoModule
        } else if text_is(u, "UMD") {
            Module::Umd
        } else if text_is(u, "AMD") {
            Module::Amd
        } else if text_is(u, "SYSTEM") {
            Module::System
        } else if text_is(u, "ESNEXT") {
            Module::EsNext
        } else {
            Module::Other(String::from_str(u))
        }
    }

    /// Reads a configuration value, compared without regard to case.
    pub fn parse(s: &str) -> (r: Module)
        ensures
            match known_module(upper_of(s@)) {
                Some(k) => r == k,
                None => r matches Module::Other(o) && o@ == upper_of(s@),
            },
    {
        let u = to_upper(s);
        Module::from_uppercase(u.as_str())
    }
}

/// How JSX is emitted.
#[derive(Debug, Clone, Copy, PartialEq, Eq, Structural)]
pub enum Jsx {
    React,
    ReactJsx,
    ReactJsxdev,
    ReactNative,
    Preserve,
}

/// The JSX modes, by upper-cased hyphenated name.
pub open spec fn known_jsx(u: Seq<char>) -> Option<Jsx> {
    if u == "REACT"@ {
        Some(Jsx::React)
    } else if u == "REACT-JSX"@ {
        Some(Jsx::ReactJsx)
    } else if u == "REACT-JSXDEV"@ {
        Some(Jsx::ReactJsxdev)
    } else if u == "REACT-NATIVE"@ {
        Some(Jsx::ReactNative)
    } else if u == "PRESERVE"@ {
        Some(Jsx::Preserve)
    } else {
        None
    }
}

impl Jsx {
    /// Picks the variant for the upper-cased text `u`.
    pub fn from_uppercase(u: &str) -> (r: Option<Jsx>)
        ensures
            r == known_jsx(u@),
    {
        if text_is(u, "REACT") {
            Some(Jsx::React)
        } else if text_is(u, "REACT-JSX") {
            Some(Jsx::ReactJsx)
        } else if text_is(u, "REACT-JSXDEV") {
            Some(Jsx::ReactJsxdev)
        } else if text_is(u, "REACT-NATIVE") {
            Some(Jsx::ReactNative)
        } else if text_is(u, "PRESERVE") {
            Some(Jsx::Preserve)
        } else {
            None
        }
    }

    /// Reads a configuration value, compared without regard to case; `None` where it names no
    /// variant.
    pub fn parse(s: &str) -> (r: Option<Jsx>)
        ensures
            r == known_jsx(upper_of(s@)),
    {
        let u = to_upper(s);
        Jsx::from_uppercase(u.as_str())
    }
}

/// How module specifiers are resolved.
#[derive(Debug, Clone, Copy, PartialEq, Eq, Structural)]
pub enum ModuleResolutionMode {
    Node,
    Classic,
}

/// The resolution modes, by exact name.
pub open spec fn known_module_resolution(u: Seq<char>) -> Option<ModuleResolutionMode> {
    if u == "node"@ {
        Some(ModuleResolutionMode::Node)
    } else if u == "classic"@ {
        Some(ModuleResolutionMode::Classic)
    } else {
        None
    }
}

impl ModuleResolutionMode {
    /// Reads a configuration value, compared exactly; `None` where it names no
    /// variant.
    pub fn parse(s: &str) -> (r: Option<ModuleResolutionMode>)
        ensures
            r == known_module_resolution(s@),
    {
        if text_is(s, "node") {
            Some(ModuleResolutionMode::Node)
        } else if text_is(s, "classic") {
            Some(ModuleResolutionMode::Classic)
        } else {
            None
        }
    }
}

} // verus!
