//! Rendering a resolved descriptor as Rust source: the repository type with
//! its constructor, then one trait impl per enabled capability, in registry
//! order. Method bodies bring diesel and the table's DSL into scope, so that
//! a wrong table reference fails the build, and are placeholders that report
//! the missing query.
use vstd::prelude::*;
use crate::capability::{method_name, param_name, params_of, returns_of, trait_name, Capability, ParamKind};
use crate::declaration::Declaration;
use crate::descriptor::{resolve_options, DescriptorModel, Profile, RepositoryDescriptor};
use crate::emit::{enabled_capabilities, enabled_in, id_text, param_type, return_type};
use crate::error::{Diagnostic, ErrorModel};
use crate::options::{parse_options, Options, OptionsModel};

verus! {

/// The repository type and its constructor, which takes a shared handle to
/// the pool.
pub open spec fn header_text(d: DescriptorModel) -> Seq<char> {
    "pub struct "@ + d.repo_name + " {\n    pool: std::sync::Arc<"@ + d.pool + ">,\n}\n\nimpl "@
        + d.repo_name + " {\n    pub fn new(pool: std::sync::Arc<"@ + d.pool
        + ">) -> Self {\n        Self { pool }\n    }\n}\n"@
}

/// The type arguments of the trait a capability's impl implements.
pub open spec fn trait_args(d: DescriptorModel, c: Capability) -> Seq<char> {
    match c {
        Capability::FindOne | Capability::BatchFind => d.entity + ", "@ + id_text(d),
        Capability::FindOneQuery | Capability::FindQuery => d.entity + ", Q"@,
        Capability::Save | Capability::BatchSave => d.entity + ", "@ + d.new_type,
        Capability::Update | Capability::BatchUpdate => d.entity + ", "@ + d.update_type,
        Capability::Replace => d.entity + ", "@ + d.entity,
        Capability::Delete | Capability::BatchDelete => id_text(d),
        Capability::Count => "Q"@,
        Capability::FindAll | Capability::PagedFindQuery | Capability::PagedFindAll => d.entity,
    }
}

/// The generics of the impl: the query type when the trait takes it.
pub open spec fn impl_generics(c: Capability) -> Seq<char> {
    match c {
        Capability::FindOneQuery | Capability::FindQuery | Capability::Count => "<Q>"@,
        _ => ""@,
    }
}

/// The generics of the method: the query type when the method takes it.
pub open spec fn method_generics(c: Capability) -> Seq<char> {
    match c {
        Capability::PagedFindQuery => "<Q: diesel::QueryDsl>"@,
        _ => ""@,
    }
}

pub open spec fn impl_attribute(p: Profile) -> Seq<char> {
    match p {
        Profile::Blocking => ""@,
        Profile::Suspending => "#[async_trait::async_trait]\n"@,
    }
}

pub open spec fn fn_keyword(p: Profile) -> Seq<char> {
    match p {
        Profile::Blocking => "fn "@,
        Profile::Suspending => "async fn "@,
    }
}

/// The parameters after `self`, each preceded by a comma.
pub open spec fn params_text(d: DescriptorModel, ks: Seq<ParamKind>) -> Seq<char>
    decreases ks.len(),
{
    if ks.len() == 0 {
        Seq::empty()
    } else {
        params_text(d, ks.drop_last()) + ", "@ + param_name(ks.last()) + ": "@ + param_type(
            d,
            ks.last(),
        )
    }
}

/// The trait impl that carries one capability's method.
pub open spec fn method_text(d: DescriptorModel, c: Capability) -> Seq<char> {
    "\n"@ + impl_attribute(d.profile) + "impl"@ + impl_generics(c) + " diesel_repository::"@
        + trait_name(c) + "<"@ + trait_args(d, c) + "> for "@ + d.repo_name + " {\n    "@
        + fn_keyword(d.profile) + method_name(c) + method_generics(c) + "(&self"@ + params_text(
        d,
        params_of(c),
    ) + ") -> Result<"@ + return_type(d, returns_of(c))
        + ", diesel::result::Error> {\n        use diesel::prelude::*;\n        use "@ + d.table_ref
        + "::dsl::*;\n        unimplemented!(\"["@ + method_name(c)
        + "] is not implemented yet\")\n    }\n}\n"@
}

pub open spec fn methods_text(d: DescriptorModel, cs: Seq<Capability>) -> Seq<char>
    decreases cs.len(),
{
    if cs.len() == 0 {
        Seq::empty()
    } else {
        methods_text(d, cs.drop_last()) + method_text(d, cs.last())
    }
}

/// The source of the whole repository.
pub open spec fn source_text(d: DescriptorModel) -> Seq<char> {
    header_text(d) + methods_text(d, enabled_capabilities(d))
}

/// What a declaration compiles to, as source.
pub open spec fn compile_source(d: Declaration, p: Profile) -> Result<Seq<char>, ErrorModel> {
    match parse_options(d) {
        Err(e) => Err(e),
        Ok(o) => match resolve_options(o, p) {
            Err(e) => Err(e),
            Ok(desc) => Ok(source_text(desc)),
        },
    }
}

impl Capability {
    fn impl_generics(self) -> (r: &'static str)
        ensures
            r@ == impl_generics(self),
    {
        match self {
            Capability::FindOneQuery | Capability::FindQuery | Capability::Count => "<Q>",
            _ => "",
        }
    }

    fn method_generics(self) -> (r: &'static str)
        ensures
            r@ == method_generics(self),
    {
        match self {
            Capability::PagedFindQuery => "<Q: diesel::QueryDsl>",
            _ => "",
        }
    }
}

impl Profile {
    fn impl_attribute(self) -> (r: &'static str)
        ensures
            r@ == impl_attribute(self),
    {
        match self {
            Profile::Blocking => "",
            Profile::Suspending => "#[async_trait::async_trait]\n",
        }
    }

    fn fn_keyword(self) -> (r: &'static str)
        ensures
            r@ == fn_keyword(self),
    {
        match self {
            Profile::Blocking => "fn ",
            Profile::Suspending => "async fn ",
        }
    }
}

impl RepositoryDescriptor {
    fn header_text(&self) -> (r: String)
        ensures
            r@ == header_text(self@),
    {
        let mut s = String::from_str("pub struct ");
        s.append(self.repo_name.as_str());
        s.append(" {\n    pool: std::sync::Arc<");
        s.append(self.pool.as_str());
        s.append(">,\n}\n\nimpl ");
        s.append(self.repo_name.as_str());
        s.append(" {\n    pub fn new(pool: std::sync::Arc<");
        s.append(self.pool.as_str());
        s.append(">) -> Self {\n        Self { pool }\n    }\n}\n");
        s
    }

    fn trait_args(&self, c: Capability) -> (r: String)
        ensures
            r@ == trait_args(self@, c),
    {
        match c {
            Capability::FindOne | Capability::BatchFind => {
                let mut s = self.entity.clone();
                s.append(", ");
                s.append(self.id_text().as_str());
                s
            },
            Capability::FindOneQuery | Capability::FindQuery => {
                let mut s = self.entity.clone();
                s.append(", Q");
                s
            },
            Capability::Save | Capability::BatchSave => {
                let mut s = self.entity.clone();
                s.append(", ");
                s.append(self.new_type.as_str());
                s
            },
            Capability::Update | Capability::BatchUpdate => {
                let mut s = self.entity.clone();
                s.append(", ");
                s.append(self.update_type.as_str());
                s
            },
            Capability::Replace => {
                let mut s = self.entity.clone();
                s.append(", ");
                s.append(self.entity.as_str());
                s
            },
            Capability::Delete | Capability::BatchDelete => self.id_text(),
            Capability::Count => String::from_str("Q"),
            Capability::FindAll | Capability::PagedFindQuery | Capability::PagedFindAll => {
                self.entity.clone()
            },
        }
    }

    fn params_text(&self, ks: &Vec<ParamKind>) -> (r: String)
        ensures
            r@ == params_text(self@, ks@),
    {
        let mut s = String::new();
        let mut i: usize = 0;
        while i < ks.len()
            invariant
                0 <= i <= ks@.len(),
                s@ == params_text(self@, ks@.take(i as int)),
            decreases ks@.len() - i,
        {
            assert(ks@.take(i + 1).drop_last() =~= ks@.take(i as int));
            assert(ks@.take(i + 1).last() == ks@[i as int]);
            s.append(", ");
            s.append(ks[i].name());
            s.append(": ");
            s.append(self.param_type(ks[i]).as_str());
            i += 1;
        }
        assert(ks@.take(i as int) =~= ks@);
        s
    }

    fn method_text(&self, c: Capability) -> (r: String)
        ensures
            r@ == method_text(self@, c),
    {
        let mut s = String::from_str("\n");
        s.append(self.profile.impl_attribute());
        s.append("impl");
        s.append(c.impl_generics());
        s.append(" diesel_repository::");
        s.append(c.trait_name());
        s.append("<");
        s.append(self.trait_args(c).as_str());
        s.append("> for ");
        s.append(self.repo_name.as_str());
        s.append(" {\n    ");
        s.append(self.profile.fn_keyword());
        s.append(c.method_name());
        s.append(c.method_generics());
        s.append("(&self");
        s.append(self.params_text(&c.params()).as_str());
        s.append(") -> Result<");
        s.append(self.return_type(c.return_shape()).as_str());
        s.append(", diesel::result::Error> {\n        use diesel::prelude::*;\n        use ");
        s.append(self.table_ref.as_str());
        s.append("::dsl::*;\n        unimplemented!(\"[");
        s.append(c.method_name());
        s.append("] is not implemented yet\")\n    }\n}\n");
        s
    }

    /// Renders the repository as Rust source.
    pub fn render(&self) -> (r: String)
        ensures
            r@ == source_text(self@),
    {
        let all = Capability::all();
        let mut s = self.header_text();
        let mut i: usize = 0;
        while i < all.len()
            invariant
                0 <= i <= all@.len(),
                all@ == crate::capability::all_capabilities(),
                s@ == header_text(self@) + methods_text(
                    self@,
                    enabled_in(all@.take(i as int), self.crud, self.paging, self.batch),
                ),
            decreases all@.len() - i,
        {
            let c = all[i];
            let ghost before = enabled_in(all@.take(i as int), self.crud, self.paging, self.batch);
            assert(all@.take(i + 1).drop_last() =~= all@.take(i as int));
            if c.is_enabled(&self.crud, &self.paging, &self.batch) {
                let m = self.method_text(c);
                s.append(m.as_str());
                assert(before.push(c).drop_last() =~= before);
                assert(header_text(self@) + methods_text(self@, before.push(c)) =~= header_text(
                    self@,
                ) + methods_text(self@, before) + method_text(self@, c));
            }
            i += 1;
        }
        assert(all@.take(i as int) =~= all@);
        s
    }
}

/// What parsed options compile to, as source.
pub open spec fn derive_source(o: OptionsModel, p: Profile) -> Result<Seq<char>, ErrorModel> {
    match resolve_options(o, p) {
        Err(e) => Err(e),
        Ok(desc) => Ok(source_text(desc)),
    }
}

/// Resolves parsed options and renders the repository they describe, or
/// reports why they were refused together with the entity.
pub fn derive(opts: &Options, profile: Profile) -> (r: Result<String, Diagnostic>)
    ensures
        match r {
            Ok(src) => derive_source(opts@, profile) == Ok::<_, ErrorModel>(src@),
            Err(diag) => derive_source(opts@, profile) == Err::<Seq<char>, _>(diag.error@)
                && diag.entity@ == opts.repo.ident@,
        },
{
    match RepositoryDescriptor::resolve(opts, profile) {
        Ok(d) => Ok(d.render()),
        Err(error) => Err(Diagnostic { entity: opts.repo.ident.clone(), error }),
    }
}

/// Compiles a declaration to the source of its repository, or reports the
/// first failure together with the entity.
pub fn generate_source(decl: &Declaration, profile: Profile) -> (r: Result<String, Diagnostic>)
    ensures
        match r {
            Ok(src) => compile_source(*decl, profile) == Ok::<_, ErrorModel>(src@),
            Err(diag) => compile_source(*decl, profile) == Err::<Seq<char>, _>(diag.error@)
                && diag.entity@ == decl.ident@,
        },
{
    match Options::from_derive_input(decl) {
        Ok(o) => derive(&o, profile),
        Err(error) => Err(Diagnostic { entity: decl.ident.clone(), error }),
    }
}

} // verus!
