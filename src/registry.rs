//! The set of modules that tool calls are dispatched to.
use vstd::prelude::*;
use crate::error::AppError;
use crate::json::JsonValue;
use crate::arithmetic::Arithmetic;
use crate::math::Math;
use crate::module::{Module, ModuleError, Tool, ToolCallFunction, ToolKey, tool_key};
use crate::text::push_str;

verus! {

/// The modules, in order of registration, each name at most once.
pub struct ModuleRegistry<M: Module> {
    modules: Vec<M>,
}

/// No module before position `i` has the name.
pub open spec fn absent_before<M: Module>(ms: Seq<M>, name: Seq<char>, i: int) -> bool {
    forall|j: int| 0 <= j < i ==> ms[j].spec_name() != name
}

/// The lines that `list_modules` gives: "name : description" for each module.
pub open spec fn module_line<M: Module>(m: M) -> Seq<char> {
    m.spec_name() + " : "@ + m.spec_description()
}

/// The prompt fragments of the modules, each followed by a new line.
pub open spec fn prompts_text<M: Module>(ms: Seq<M>) -> Seq<char>
    decreases ms.len(),
{
    if ms.len() == 0 {
        Seq::empty()
    } else {
        prompts_text(ms.drop_last()) + ms.last().spec_prompt() + "\n"@
    }
}

/// The tools of the modules, module after module.
pub open spec fn tools_of<M: Module>(ms: Seq<M>) -> Seq<ToolKey>
    decreases ms.len(),
{
    if ms.len() == 0 {
        Seq::empty()
    } else {
        tools_of(ms.drop_last()) + ms.last().spec_tools()
    }
}

/// `r` is what dispatching `func` to the module `m` gives.
pub open spec fn dispatched<M: Module>(
    m: M,
    func: ToolCallFunction,
    r: Result<JsonValue, AppError>,
) -> bool {
    match r {
        Ok(v) => m.spec_run(func, Ok(v)),
        Err(AppError::ModuleError(e)) => m.spec_run(func, Err(e)),
        _ => false,
    }
}

/// `r` is what running `func` on a registry of modules `ms` gives: a missing
/// module where none has the name that `func` gives, else what that module
/// gives.
pub open spec fn executes<M: Module>(
    ms: Seq<M>,
    func: ToolCallFunction,
    r: Result<JsonValue, AppError>,
) -> bool {
    &&& absent_before(ms, func.module@, ms.len() as int) ==> (match r {
        Err(AppError::ModuleNotFound(n)) => n@ == func.module@,
        _ => false,
    })
    &&& forall|i: int|
        0 <= i < ms.len() && ms[i].spec_name() == func.module@ && absent_before(ms, func.module@, i)
            ==> dispatched(ms[i], func, r)
}

impl<M: Module> View for ModuleRegistry<M> {
    type V = Seq<M>;

    closed spec fn view(&self) -> Seq<M> {
        self.modules@
    }
}

/// The modules of this library, so that one registry can hold any of them.
pub enum BuiltinModule {
    Math(Math),
    Arithmetic(Arithmetic),
}

impl Module for BuiltinModule {
    open spec fn spec_name(&self) -> Seq<char> {
        match self {
            BuiltinModule::Math(m) => m.spec_name(),
            BuiltinModule::Arithmetic(a) => a.spec_name(),
        }
    }

    open spec fn spec_description(&self) -> Seq<char> {
        match self {
            BuiltinModule::Math(m) => m.spec_description(),
            BuiltinModule::Arithmetic(a) => a.spec_description(),
        }
    }

    open spec fn spec_prompt(&self) -> Seq<char> {
        match self {
            BuiltinModule::Math(m) => m.spec_prompt(),
            BuiltinModule::Arithmetic(a) => a.spec_prompt(),
        }
    }

    open spec fn spec_run(&self, func: ToolCallFunction, r: Result<JsonValue, ModuleError>) -> bool {
        match self {
            BuiltinModule::Math(m) => m.spec_run(func, r),
            BuiltinModule::Arithmetic(a) => a.spec_run(func, r),
        }
    }

    open spec fn spec_tools(&self) -> Seq<ToolKey> {
        match self {
            BuiltinModule::Math(m) => m.spec_tools(),
            BuiltinModule::Arithmetic(a) => a.spec_tools(),
        }
    }

    fn name(&self) -> (r: &'static str) {
        match self {
            BuiltinModule::Math(m) => Module::name(m),
            BuiltinModule::Arithmetic(a) => Module::name(a),
        }
    }

    fn description(&self) -> (r: &'static str) {
        match self {
            BuiltinModule::Math(m) => m.description(),
            BuiltinModule::Arithmetic(a) => a.description(),
        }
    }

    fn get_prompt(&self) -> (r: &'static str) {
        match self {
            BuiltinModule::Math(m) => m.get_prompt(),
            BuiltinModule::Arithmetic(a) => a.get_prompt(),
        }
    }

    fn run(&self, func: &ToolCallFunction) -> (r: Result<JsonValue, ModuleError>) {
        match self {
            BuiltinModule::Math(m) => m.run(func),
            BuiltinModule::Arithmetic(a) => a.run(func),
        }
    }

    fn tools(&self) -> (r: Vec<Tool>) {
        match self {
            BuiltinModule::Math(m) => m.tools(),
            BuiltinModule::Arithmetic(a) => a.tools(),
        }
    }
}

impl ModuleRegistry<BuiltinModule> {
    /// A registry that holds the `math` module.
    pub fn new() -> (r: ModuleRegistry<BuiltinModule>)
        ensures
            r.wf(),
            r@ == seq![BuiltinModule::Math(Math)],
    {
        let mut r = ModuleRegistry::empty_registry();
        r.register_module(BuiltinModule::Math(Math::new()));
        assert(r@ =~= seq![BuiltinModule::Math(Math)]);
        r
    }
}

impl<M: Module> ModuleRegistry<M> {
    /// No two modules have the same name.
    pub open spec fn wf(&self) -> bool {
        forall|i: int, j: int|
            0 <= i < j < self@.len() ==> self@[i].spec_name() != self@[j].spec_name()
    }

    pub fn empty_registry() -> (r: ModuleRegistry<M>)
        ensures
            r.wf(),
            r@.len() == 0,
    {
        ModuleRegistry { modules: Vec::new() }
    }

    /// The position of the module with the given name.
    fn position(&self, name: &str) -> (r: Option<usize>)
        ensures
            match r {
                Some(i) => i < self@.len() && self@[i as int].spec_name() == name@,
                None => absent_before(self@, name@, self@.len() as int),
            },
    {
        let mut i: usize = 0;
        while i < self.modules.len()
            invariant
                i <= self.modules@.len(),
                absent_before(self.modules@, name@, i as int),
            decreases self.modules.len() - i,
        {
            let n = self.modules[i].name();
            if crate::json::string_eq(&String::from_str(n), name) {
                return Some(i);
            }
            i = i + 1;
        }
        None
    }

    /// Adds a module; one with the same name is replaced in its place.
    pub fn register_module(&mut self, module: M)
        requires
            old(self).wf(),
        ensures
            final(self).wf(),
            absent_before(old(self)@, module.spec_name(), old(self)@.len() as int)
                ==> final(self)@ == old(self)@.push(module),
            forall|i: int|
                0 <= i < old(self)@.len() && old(self)@[i].spec_name() == module.spec_name()
                    ==> final(self)@ == old(self)@.update(i, module),
    {
        let name = module.name();
        match self.position(name) {
            Some(i) => {
                self.modules.set(i, module);
            },
            None => {
                self.modules.push(module);
            },
        }
    }

    /// The module with the given name.
    pub fn get_module(&self, name: &str) -> (r: Option<&M>)
        requires
            self.wf(),
        ensures
            match r {
                Some(m) => m.spec_name() == name@ && exists|i: int|
                    0 <= i < self@.len() && self@[i] == *m,
                None => absent_before(self@, name@, self@.len() as int),
            },
    {
        match self.position(name) {
            Some(i) => Some(&self.modules[i]),
            None => None,
        }
    }

    /// "name : description" for each module, in order of registration.
    pub fn list_modules(&self) -> (r: Vec<String>)
        ensures
            r@.len() == self@.len(),
            forall|i: int| 0 <= i < r@.len() ==> r@[i]@ == module_line(self@[i]),
    {
        let mut r: Vec<String> = Vec::new();
        let mut i: usize = 0;
        while i < self.modules.len()
            invariant
                i <= self.modules@.len(),
                r@.len() == i,
                forall|k: int| 0 <= k < i ==> r@[k]@ == module_line(self.modules@[k]),
            decreases self.modules.len() - i,
        {
            let m = &self.modules[i];
            let mut line = String::from_str(m.name());
            push_str(&mut line, " : ");
            push_str(&mut line, m.description());
            r.push(line);
            i = i + 1;
        }
        r
    }

    /// The tools of every module, module after module.
    pub fn all_tools(&self) -> (r: Vec<Tool>)
        ensures
            r@.map_values(|t: Tool| tool_key(t)) == tools_of(self@),
    {
        let mut r: Vec<Tool> = Vec::new();
        let mut i: usize = 0;
        while i < self.modules.len()
            invariant
                i <= self.modules@.len(),
                r@.map_values(|t: Tool| tool_key(t)) == tools_of(self.modules@.take(i as int)),
            decreases self.modules.len() - i,
        {
            let ghost before = r@;
            let mut ts = self.modules[i].tools();
            let ghost added = ts@;
            r.append(&mut ts);
            proof {
                assert(self.modules@.take(i + 1).drop_last() =~= self.modules@.take(i as int));
                assert(r@.map_values(|t: Tool| tool_key(t)) =~= before.map_values(
                    |t: Tool| tool_key(t),
                ) + added.map_values(|t: Tool| tool_key(t)));
            }
            i = i + 1;
        }
        assert(self.modules@.take(self.modules@.len() as int) =~= self.modules@);
        r
    }

    /// Runs a tool call on the module it names.
    pub fn execute(&self, func: &ToolCallFunction) -> (r: Result<JsonValue, AppError>)
        ensures
            executes(self@, *func, r),
    {
        let mut i: usize = 0;
        while i < self.modules.len()
            invariant
                i <= self.modules@.len(),
                absent_before(self.modules@, func.module@, i as int),
            decreases self.modules.len() - i,
        {
            let m = &self.modules[i];
            if crate::json::string_eq(&String::from_str(m.name()), func.module.as_str()) {
                return match m.run(func) {
                    Ok(v) => Ok(v),
                    Err(e) => Err(AppError::ModuleError(e)),
                };
            }
            i = i + 1;
        }
        Err(AppError::ModuleNotFound(func.module.clone()))
    }

    /// The prompt fragment of every module, each followed by a new line.
    pub fn get_system_prompt(&self) -> (r: String)
        ensures
            r@ == prompts_text(self@),
    {
        let mut r = String::new();
        let mut i: usize = 0;
        while i < self.modules.len()
            invariant
                i <= self.modules@.len(),
                r@ == prompts_text(self.modules@.take(i as int)),
            decreases self.modules.len() - i,
        {
            push_str(&mut r, self.modules[i].get_prompt());
            push_str(&mut r, "\n");
            proof {
                assert(self.modules@.take(i + 1).drop_last() =~= self.modules@.take(i as int));
            }
            i = i + 1;
        }
        assert(self.modules@.take(self.modules@.len() as int) =~= self.modules@);
        r
    }
}

} // verus!
