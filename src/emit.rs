//! The emitter: one method binding per enabled capability, taken from the
//! registry in its fixed order and instantiated with the descriptor's types.
use vstd::prelude::*;
use crate::capability::{all_capabilities, method_name, param_name, params_of, returns_of, Capability, ParamKind, ReturnShape};
use crate::declaration::Declaration;
use crate::descriptor::{is_enabled, resolve_options, DescriptorModel, Profile, RepositoryDescriptor};
use crate::error::{Diagnostic, ErrorModel};
use crate::options::{parse_options, BatchRepoOpts, CrudRepoOpts, Options, PagingRepoOpts};

verus! {

/// One parameter of a generated method.
#[derive(Clone, Debug, PartialEq, Eq)]
pub struct Param {
    pub kind: ParamKind,
    pub name: String,
    pub ty: String,
}

/// One generated method: its name, its signature and the capability it
/// stands for.
#[derive(Clone, Debug, PartialEq, Eq)]
pub struct MethodBinding {
    pub capability: Capability,
    pub name: String,
    pub params: Vec<Param>,
    pub returns: ReturnShape,
    pub return_type: String,
}

/// A generated repository: its type name, the pool type its constructor
/// takes a shared handle to, its profile and its methods.
#[derive(Clone, Debug, PartialEq, Eq)]
pub struct RepositoryDefinition {
    pub name: String,
    pub pool: String,
    pub profile: Profile,
    pub methods: Vec<MethodBinding>,
}

pub struct ParamModel {
    pub kind: ParamKind,
    pub name: Seq<char>,
    pub ty: Seq<char>,
}

pub struct BindingModel {
    pub capability: Capability,
    pub name: Seq<char>,
    pub params: Seq<ParamModel>,
    pub returns: ReturnShape,
    pub return_type: Seq<char>,
}

pub struct DefinitionModel {
    pub name: Seq<char>,
    pub pool: Seq<char>,
    pub profile: Profile,
    pub methods: Seq<BindingModel>,
}

impl View for Param {
    type V = ParamModel;

    open spec fn view(&self) -> ParamModel {
        ParamModel { kind: self.kind, name: self.name@, ty: self.ty@ }
    }
}

pub open spec fn param_views(s: Seq<Param>) -> Seq<ParamModel> {
    s.map_values(|p: Param| p@)
}

impl View for MethodBinding {
    type V = BindingModel;

    open spec fn view(&self) -> BindingModel {
        BindingModel {
            capability: self.capability,
            name: self.name@,
            params: param_views(self.params@),
            returns: self.returns,
            return_type: self.return_type@,
        }
    }
}

pub open spec fn binding_views(s: Seq<MethodBinding>) -> Seq<BindingModel> {
    s.map_values(|b: MethodBinding| b@)
}

impl View for RepositoryDefinition {
    type V = DefinitionModel;

    open spec fn view(&self) -> DefinitionModel {
        DefinitionModel {
            name: self.name@,
            pool: self.pool@,
            profile: self.profile,
            methods: binding_views(self.methods@),
        }
    }
}

/// The members of `caps` that the flags enable, in the order of `caps`.
pub open spec fn enabled_in(
    caps: Seq<Capability>,
    crud: CrudRepoOpts,
    paging: PagingRepoOpts,
    batch: BatchRepoOpts,
) -> Seq<Capability>
    decreases caps.len(),
{
    if caps.len() == 0 {
        Seq::empty()
    } else {
        let rest = enabled_in(caps.drop_last(), crud, paging, batch);
        if is_enabled(crud, paging, batch, caps.last()) {
            rest.push(caps.last())
        } else {
            rest
        }
    }
}

/// The capabilities a descriptor enables, in registry order.
pub open spec fn enabled_capabilities(d: DescriptorModel) -> Seq<Capability> {
    enabled_in(all_capabilities(), d.crud, d.paging, d.batch)
}

/// The identifier type, when one was given.
pub open spec fn id_text(d: DescriptorModel) -> Seq<char> {
    match d.id_type {
        Some(t) => t,
        None => Seq::empty(),
    }
}

/// A borrowed slice of `t`.
pub open spec fn slice_of(t: Seq<char>) -> Seq<char> {
    "&["@ + t + "]"@
}

/// The type of a parameter, instantiated with the descriptor's types.
pub open spec fn param_type(d: DescriptorModel, k: ParamKind) -> Seq<char> {
    match k {
        ParamKind::Id => id_text(d),
        ParamKind::Ids => slice_of(id_text(d)),
        ParamKind::Query => "Q"@,
        ParamKind::NewRecord => d.new_type,
        ParamKind::NewRecords => slice_of(d.new_type),
        ParamKind::UpdateRecord => d.update_type,
        ParamKind::UpdateRecords => slice_of(d.update_type),
        ParamKind::Record => d.entity,
        ParamKind::Page => "i64"@,
        ParamKind::PerPage => "i64"@,
    }
}

/// The type a method of the given shape returns on success.
pub open spec fn return_type(d: DescriptorModel, s: ReturnShape) -> Seq<char> {
    match s {
        ReturnShape::Record => d.entity,
        ReturnShape::Records => "Vec<"@ + d.entity + ">"@,
        ReturnShape::Paged => "diesel_repository::Paged<"@ + d.entity + ">"@,
        ReturnShape::Count => "i64"@,
        ReturnShape::Unit => "()"@,
    }
}

pub open spec fn param_model(d: DescriptorModel, k: ParamKind) -> ParamModel {
    ParamModel { kind: k, name: param_name(k), ty: param_type(d, k) }
}

/// The registry row of `c`, instantiated with the descriptor's types.
pub open spec fn binding_of(d: DescriptorModel, c: Capability) -> BindingModel {
    BindingModel {
        capability: c,
        name: method_name(c),
        params: params_of(c).map_values(|k: ParamKind| param_model(d, k)),
        returns: returns_of(c),
        return_type: return_type(d, returns_of(c)),
    }
}

/// One binding per enabled capability, in registry order.
pub open spec fn bindings_of(d: DescriptorModel) -> Seq<BindingModel> {
    enabled_capabilities(d).map_values(|c: Capability| binding_of(d, c))
}

pub open spec fn definition_of(d: DescriptorModel) -> DefinitionModel {
    DefinitionModel {
        name: d.repo_name,
        pool: d.pool,
        profile: d.profile,
        methods: bindings_of(d),
    }
}

/// What a declaration compiles to: its options, resolved, then emitted.
pub open spec fn compile(d: Declaration, p: Profile) -> Result<DefinitionModel, ErrorModel> {
    match parse_options(d) {
        Err(e) => Err(e),
        Ok(o) => match resolve_options(o, p) {
            Err(e) => Err(e),
            Ok(desc) => Ok(definition_of(desc)),
        },
    }
}

fn slice_text(t: &String) -> (r: String)
    ensures
        r@ == slice_of(t@),
{
    String::from_str("&[").concat(t.as_str()).concat("]")
}

impl RepositoryDescriptor {
    pub(crate) fn id_text(&self) -> (r: String)
        ensures
            r@ == id_text(self@),
    {
        match &self.id_type {
            Some(t) => t.clone(),
            None => String::new(),
        }
    }

    /// The type of a parameter, instantiated with this descriptor's types.
    pub fn param_type(&self, k: ParamKind) -> (r: String)
        ensures
            r@ == param_type(self@, k),
    {
        match k {
            ParamKind::Id => self.id_text(),
            ParamKind::Ids => slice_text(&self.id_text()),
            ParamKind::Query => String::from_str("Q"),
            ParamKind::NewRecord => self.new_type.clone(),
            ParamKind::NewRecords => slice_text(&self.new_type),
            ParamKind::UpdateRecord => self.update_type.clone(),
            ParamKind::UpdateRecords => slice_text(&self.update_type),
            ParamKind::Record => self.entity.clone(),
            ParamKind::Page => String::from_str("i64"),
            ParamKind::PerPage => String::from_str("i64"),
        }
    }

    /// The type a method of the given shape returns on success.
    pub fn return_type(&self, s: ReturnShape) -> (r: String)
        ensures
            r@ == return_type(self@, s),
    {
        match s {
            ReturnShape::Record => self.entity.clone(),
            ReturnShape::Records => String::from_str("Vec<").concat(self.entity.as_str()).concat(">"),
            ReturnShape::Paged => String::from_str("diesel_repository::Paged<").concat(
                self.entity.as_str(),
            ).concat(">"),
            ReturnShape::Count => String::from_str("i64"),
            ReturnShape::Unit => String::from_str("()"),
        }
    }
}

impl MethodBinding {
    /// The registry row of `c`, instantiated with the descriptor's types.
    pub fn instantiate(d: &RepositoryDescriptor, c: Capability) -> (r: MethodBinding)
        ensures
            r@ == binding_of(d@, c),
    {
        let kinds = c.params();
        let mut params: Vec<Param> = Vec::new();
        let mut i: usize = 0;
        while i < kinds.len()
            invariant
                0 <= i <= kinds@.len(),
                kinds@ == params_of(c),
                param_views(params@) == kinds@.take(i as int).map_values(
                    |k: ParamKind| param_model(d@, k),
                ),
            decreases kinds@.len() - i,
        {
            let k = kinds[i];
            let p = Param { kind: k, name: String::from_str(k.name()), ty: d.param_type(k) };
            let ghost prev = params@;
            params.push(p);
            assert(param_views(params@) =~= param_views(prev).push(p@));
            assert(kinds@.take(i + 1).map_values(|k: ParamKind| param_model(d@, k))
                =~= kinds@.take(i as int).map_values(|k: ParamKind| param_model(d@, k)).push(
                param_model(d@, k),
            ));
            i += 1;
        }
        assert(kinds@.take(i as int) =~= kinds@);
        let shape = c.return_shape();
        let r = MethodBinding {
            capability: c,
            name: String::from_str(c.method_name()),
            params,
            returns: shape,
            return_type: d.return_type(shape),
        };
        assert(r@.params =~= binding_of(d@, c).params);
        r
    }
}

impl RepositoryDefinition {
    /// Emits the repository that a descriptor describes: one binding per
    /// enabled capability, crud first, then paging, then batch, each group
    /// in declaration order.
    pub fn emit(d: &RepositoryDescriptor) -> (r: RepositoryDefinition)
        ensures
            r@ == definition_of(d@),
    {
        let all = Capability::all();
        let mut methods: Vec<MethodBinding> = Vec::new();
        let mut i: usize = 0;
        while i < all.len()
            invariant
                0 <= i <= all@.len(),
                all@ == all_capabilities(),
                binding_views(methods@) == enabled_in(
                    all@.take(i as int),
                    d.crud,
                    d.paging,
                    d.batch,
                ).map_values(|c: Capability| binding_of(d@, c)),
            decreases all@.len() - i,
        {
            let c = all[i];
            let ghost prev = methods@;
            let ghost before = enabled_in(all@.take(i as int), d.crud, d.paging, d.batch);
            assert(all@.take(i + 1).drop_last() =~= all@.take(i as int));
            if c.is_enabled(&d.crud, &d.paging, &d.batch) {
                let b = MethodBinding::instantiate(d, c);
                methods.push(b);
                assert(binding_views(methods@) =~= binding_views(prev).push(b@));
                assert(before.push(c).map_values(|c: Capability| binding_of(d@, c)) =~= before.map_values(
                    |c: Capability| binding_of(d@, c),
                ).push(binding_of(d@, c)));
            }
            i += 1;
        }
        assert(all@.take(i as int) =~= all@);
        RepositoryDefinition {
            name: d.repo_name.clone(),
            pool: d.pool.clone(),
            profile: d.profile,
            methods,
        }
    }
}

/// Compiles a declaration: parses its facets, resolves them and emits the
/// repository, or reports the first failure together with the entity.
pub fn generate(decl: &Declaration, profile: Profile) -> (r: Result<RepositoryDefinition, Diagnostic>)
    ensures
        match r {
            Ok(def) => compile(*decl, profile) == Ok::<_, ErrorModel>(def@),
            Err(diag) => compile(*decl, profile) == Err::<DefinitionModel, _>(diag.error@)
                && diag.entity@ == decl.ident@,
        },
{
    let opts = match Options::from_derive_input(decl) {
        Ok(o) => o,
        Err(error) => return Err(Diagnostic { entity: decl.ident.clone(), error }),
    };
    let desc = match RepositoryDescriptor::resolve(&opts, profile) {
        Ok(d) => d,
        Err(error) => return Err(Diagnostic { entity: decl.ident.clone(), error }),
    };
    Ok(RepositoryDefinition::emit(&desc))
}

} // verus!
