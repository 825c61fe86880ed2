//! Steps and the registry that holds them by name.

use crate::context::Context;
use crate::error::StepError;
use crate::request::Request;
use std::sync::Arc;
use vstd::hash_map::StringHashMap;
use vstd::prelude::*;

verus! {

/// A named unit of behaviour: it says which request to send and reacts to how the
/// request ended. A step changes nothing but the context that a hook is handed.
pub trait Stepable {
    /// The name under which the step is registered.
    fn name(&self) -> String;

    /// The request to send.
    fn on_request(&self) -> Request;

    /// The response arrived and its status code was accepted.
    fn on_success(&self, ctx: &mut Context);

    /// The transport failed, or the status code of the response was not accepted.
    fn on_error(&self, ctx: &mut Context, err: StepError);

    /// The transport ran into its deadline.
    fn on_timeout(&self, ctx: &mut Context);
}

/// A shared step is a step: a registry of `Arc<dyn Stepable>` holds steps of any type.
impl<T: Stepable + ?Sized> Stepable for Arc<T> {
    fn name(&self) -> (name: String)
        ensures
            T::name.ensures((&**self,), name),
    {
        (**self).name()
    }

    fn on_request(&self) -> (request: Request)
        ensures
            T::on_request.ensures((&**self,), request),
    {
        (**self).on_request()
    }

    /// Runs the success hook of the step that is shared: the context is handed on as it
    /// came and is left as that hook left it.
    fn on_success(&self, ctx: &mut Context)
        ensures
            exists|handed: &mut Context|
                {
                    &&& #[trigger] T::on_success.ensures((&**self, handed), ())
                    &&& *handed == *old(ctx)
                    &&& *final(handed) == *final(ctx)
                },
    {
        (**self).on_success(ctx)
    }

    /// Runs the error hook of the step that is shared, with the same error: the context is
    /// handed on as it came and is left as that hook left it.
    fn on_error(&self, ctx: &mut Context, err: StepError)
        ensures
            exists|handed: &mut Context|
                {
                    &&& #[trigger] T::on_error.ensures((&**self, handed, err), ())
                    &&& *handed == *old(ctx)
                    &&& *final(handed) == *final(ctx)
                },
    {
        (**self).on_error(ctx, err)
    }

    /// Runs the timeout hook of the step that is shared: the context is handed on as it
    /// came and is left as that hook left it.
    fn on_timeout(&self, ctx: &mut Context)
        ensures
            exists|handed: &mut Context|
                {
                    &&& #[trigger] T::on_timeout.ensures((&**self, handed), ())
                    &&& *handed == *old(ctx)
                    &&& *final(handed) == *final(ctx)
                },
    {
        (**self).on_timeout(ctx)
    }
}

/// The registry that results from `registry` when `step` is put under `name`: an entry of
/// that name is replaced.
pub open spec fn registered<S>(registry: Map<Seq<char>, S>, name: Seq<char>, step: S) -> Map<
    Seq<char>,
    S,
> {
    registry.insert(name, step)
}

/// The registry that results from `registry` when each of `steps` is put under the name
/// at the same place in `names`, first to last.
pub open spec fn registered_all<S>(
    registry: Map<Seq<char>, S>,
    names: Seq<Seq<char>>,
    steps: Seq<S>,
) -> Map<Seq<char>, S>
    decreases steps.len(),
{
    if steps.len() == 0 || names.len() != steps.len() {
        registry
    } else {
        registered(
            registered_all(registry, names.drop_last(), steps.drop_last()),
            names.last(),
            steps.last(),
        )
    }
}

/// The steps that `shared` points to, in order.
pub open spec fn shared_steps<S>(shared: Seq<Arc<S>>) -> Seq<S> {
    Seq::new(shared.len(), |i: int| *shared[i])
}

/// The texts of `names`, in order.
pub open spec fn name_texts(names: Seq<String>) -> Seq<Seq<char>> {
    Seq::new(names.len(), |i: int| names[i]@)
}

/// Each of `names` is a name that the step at the same place in `steps` gives itself.
pub open spec fn names_given<S: Stepable>(steps: Seq<S>, names: Seq<String>) -> bool {
    &&& names.len() == steps.len()
    &&& forall|i: int| 0 <= i < steps.len() ==> S::name.ensures((&steps[i],), #[trigger] names[i])
}

/// Putting a step under a name and looking that name up gives the step back; every
/// other name is found or not as before. The registry grows by one entry when the name is
/// new and keeps its size when the name was taken.
pub proof fn lemma_register_then_lookup<S>(
    registry: Map<Seq<char>, S>,
    name: Seq<char>,
    step: S,
    other: Seq<char>,
)
    requires
        registry.dom().finite(),
    ensures
        registered(registry, name, step).dom().finite(),
        registered(registry, name, step).contains_key(name),
        registered(registry, name, step)[name] == step,
        other != name ==> (registered(registry, name, step).contains_key(other)
            <==> registry.contains_key(other)),
        other != name && registry.contains_key(other) ==> registered(registry, name, step)[other]
            == registry[other],
        !registry.contains_key(name) ==> registered(registry, name, step).len() == registry.len()
            + 1,
        registry.contains_key(name) ==> registered(registry, name, step).len() == registry.len(),
{
    assert(registered(registry, name, step).dom() =~= registry.dom().insert(name));
}

/// A step that was put under one of the names that it gives itself is found under that
/// name.
pub proof fn lemma_inserted_step_is_found<S: Stepable>(
    registry: Map<Seq<char>, S>,
    step: S,
    name: String,
)
    requires
        S::name.ensures((&step,), name),
    ensures
        registered(registry, name@, step).contains_key(name@),
        S::name.ensures((&registered(registry, name@, step)[name@],), name),
{
}

/// A registry of steps, each under its name.
#[verifier::reject_recursive_types(S)]
pub struct StepManager<S: Stepable> {
    handlers: StringHashMap<Arc<S>>,
}

impl<S: Stepable> View for StepManager<S> {
    type V = Map<Seq<char>, S>;

    closed spec fn view(&self) -> Map<Seq<char>, S> {
        Map::new(
            |name: Seq<char>| self.handlers@.contains_key(name),
            |name: Seq<char>| *self.handlers@[name],
        )
    }
}

impl<S: Stepable> StepManager<S> {
    #[verifier::type_invariant]
    spec fn finite(&self) -> bool {
        self.handlers@.dom().finite()
    }

    /// A registry without steps.
    pub fn new() -> (registry: Self)
        ensures
            registry@ == Map::<Seq<char>, S>::empty(),
    {
        let registry = StepManager { handlers: StringHashMap::new() };
        assert(registry@ =~= Map::<Seq<char>, S>::empty());
        registry
    }

    /// This registry with `step` put under `name`.
    fn with(self, name: String, step: Arc<S>) -> (registry: Self)
        ensures
            registry@ == registered(self@, name@, *step),
    {
        proof {
            use_type_invariant(&self);
        }
        let mut handlers = self.handlers;
        handlers.insert(name, step);
        let registry = StepManager { handlers };
        assert forall|key: Seq<char>| #[trigger]
            registry@.contains_key(key) == registered(self@, name@, *step).contains_key(key) by {
            assert(registry.handlers@.contains_key(key) == (key == name@
                || self.handlers@.contains_key(key)));
        }
        assert forall|key: Seq<char>| #[trigger]
            registry@.contains_key(key) implies registry@[key] == registered(
            self@,
            name@,
            *step,
        )[key] by {
            assert(registry.handlers@[key] == (if key == name@ {
                step
            } else {
                self.handlers@[key]
            }));
        }
        assert(registry@ =~= registered(self@, name@, *step));
        registry
    }

    /// Puts `step` under `name`. A step that was under that name is replaced.
    pub fn register(&mut self, name: String, step: Arc<S>)
        ensures
            final(self)@ == registered(old(self)@, name@, *step),
    {
        let mut registry = StepManager::new();
        std::mem::swap(self, &mut registry);
        *self = registry.with(name, step);
    }

    /// Puts `step` under the name that it gives itself.
    pub fn insert(&mut self, step: S)
        ensures
            exists|name: String|
                S::name.ensures((&step,), name) && final(self)@ == registered(
                    old(self)@,
                    name@,
                    step,
                ),
    {
        let name = step.name();
        let ghost given = name;
        self.register(name, Arc::new(step));
        assert(S::name.ensures((&step,), given) && self@ == registered(
            old(self)@,
            given@,
            step,
        ));
    }

    /// Puts the shared `step` under the name that it gives itself.
    pub fn insert_arc(&mut self, step: Arc<S>)
        ensures
            exists|name: String|
                S::name.ensures((&*step,), name) && final(self)@ == registered(
                    old(self)@,
                    name@,
                    *step,
                ),
    {
        let name = step.name();
        let ghost given = name;
        self.register(name, step);
        assert(S::name.ensures((&*step,), given) && self@ == registered(
            old(self)@,
            given@,
            *step,
        ));
    }

    /// Puts each of `steps` under the name that it gives itself, first to last: of two
    /// steps of one name the later one stays.
    pub fn insert_many(&mut self, steps: Vec<Arc<S>>)
        ensures
            exists|names: Seq<String>|
                names_given(shared_steps(steps@), names) && final(self)@ == registered_all(
                    old(self)@,
                    name_texts(names),
                    shared_steps(steps@),
                ),
    {
        let ghost mut names: Seq<String> = Seq::empty();
        let mut i: usize = 0;
        while i < steps.len()
            invariant
                i <= steps.len(),
                names_given(shared_steps(steps@).take(i as int), names),
                self@ == registered_all(
                    old(self)@,
                    name_texts(names),
                    shared_steps(steps@).take(i as int),
                ),
            decreases steps.len() - i,
        {
            let step = Arc::clone(&steps[i]);
            let name = step.name();
            proof {
                let before = shared_steps(steps@).take(i as int);
                let after = shared_steps(steps@).take(i + 1);
                assert(after.drop_last() =~= before);
                assert(after.last() == *step);
                assert(name_texts(names.push(name)).drop_last() =~= name_texts(names));
                assert(name_texts(names.push(name)).last() == name@);
                assert forall|k: int| 0 <= k < after.len() implies S::name.ensures(
                    (&after[k],),
                    #[trigger] names.push(name)[k],
                ) by {
                    if k < i {
                        assert(after[k] == before[k]);
                        assert(names.push(name)[k] == names[k]);
                    }
                }
                names = names.push(name);
            }
            self.register(name, step);
            i += 1;
        }
        assert(shared_steps(steps@).take(i as int) =~= shared_steps(steps@));
    }

    /// The step under the name `step`, if there is one.
    pub fn get(&self, step: &str) -> (found: Option<&Arc<S>>)
        ensures
            match found {
                Some(shared) => self@.contains_key(step@) && **shared == self@[step@],
                None => !self@.contains_key(step@),
            },
    {
        self.handlers.get(step)
    }

    /// The number of steps.
    pub fn len(&mut self) -> (count: usize)
        ensures
            final(self)@ == old(self)@,
            old(self)@.dom().finite(),
            count == old(self)@.len(),
    {
        proof {
            use_type_invariant(&*self);
            assert(self@.dom() =~= self.handlers@.dom());
        }
        self.handlers.len()
    }

    /// Whether a step is registered under the name `step`.
    pub fn contains_name(&mut self, step: &String) -> (found: bool)
        ensures
            final(self)@ == old(self)@,
            found == old(self)@.contains_key(step@),
    {
        self.handlers.contains_key(step.as_str())
    }

    /// Whether a step is registered under the name that `step` gives itself. The steps
    /// are compared by name alone.
    pub fn contains_step<T: Stepable>(&mut self, step: T) -> (found: bool)
        ensures
            final(self)@ == old(self)@,
            exists|name: String|
                T::name.ensures((&step,), name) && found == old(self)@.contains_key(name@),
    {
        let name = step.name();
        let found = self.contains_name(&name);
        assert(T::name.ensures((&step,), name) && found == old(self)@.contains_key(name@));
        found
    }
}

} // verus!
