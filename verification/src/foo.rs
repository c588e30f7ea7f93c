use crate::contract_a::{ContractA, CONTRACT_A_SLOTS};
use crate::contract_b::{ContractB, CONTRACT_B_SLOTS};
use crate::dispatch::{entries_map, DispatchEntry, DispatchTable};
use crate::error::Error;
use crate::interface::{signature_of, Interface, MethodSig, ParamType};
use crate::layout::{is_packing, packed_offset, Layout, Region};
use crate::selector::{leading_selector, read_selector, signature_selector};
use crate::storage::{agree_on, lemma_write_stays_in_region, word_at, Storage};
use crate::word::Word;
use vstd::prelude::*;

verus! {

/// The capability to report the number of module A.
pub trait IContractA {
    fn ret_num_a(&self) -> Word;
}

/// The capability to report the number of module B.
pub trait IContractB {
    fn ret_num_b(&self) -> Word;
}

/// The methods that the root offers to callers: those of the interfaces it
/// implements and its own.
#[derive(Clone, Copy, Debug, PartialEq, Eq, Structural)]
pub enum Method {
    /// `ret_num_a` of `IContractA`, answered by module A.
    RetNumA,
    /// `ret_num_b` of `IContractB`, answered by module B.
    RetNumB,
    /// `foofoo`, the root's own method.
    Foofoo,
}

/// The selector of `ret_num_a`.
pub open spec fn ret_num_a_selector() -> u32 {
    signature_selector(signature_of("retNumA"@, Seq::empty()))
}

/// The selector of `ret_num_b`.
pub open spec fn ret_num_b_selector() -> u32 {
    signature_selector(signature_of("retNumB"@, Seq::empty()))
}

/// The selector of `foofoo`.
pub open spec fn foofoo_selector() -> u32 {
    signature_selector(signature_of("foofoo"@, Seq::empty()))
}

/// The routes of a root whose three methods have the given selectors.
pub open spec fn routes_of(ret_num_a: u32, ret_num_b: u32, foofoo: u32) -> Map<u32, Method> {
    Map::empty().insert(ret_num_a, Method::RetNumA).insert(ret_num_b, Method::RetNumB).insert(
        foofoo,
        Method::Foofoo,
    )
}

/// Whether the routes bind each of the three methods to one selector of its
/// own.
pub open spec fn is_total_binding(routes: Map<u32, Method>) -> bool {
    exists|ret_num_a: u32, ret_num_b: u32, foofoo: u32|
        ret_num_a != ret_num_b && ret_num_a != foofoo && ret_num_b != foofoo && routes
            == #[trigger] routes_of(ret_num_a, ret_num_b, foofoo)
}

/// The region that the root gives to module A.
pub open spec fn region_a() -> Region {
    Region { offset: 0, size: CONTRACT_A_SLOTS }
}

/// The region that the root gives to module B.
pub open spec fn region_b() -> Region {
    Region { offset: CONTRACT_A_SLOTS, size: CONTRACT_B_SLOTS }
}

/// The root aggregator: it owns module A and module B, in this order, and
/// the storage they live in, implements `IContractA` and `IContractB`, and
/// routes calls to its methods by their selectors.
pub struct Foo {
    storage: Storage,
    contract_a: ContractA,
    contract_b: ContractB,
    table: DispatchTable<Method>,
}

impl Foo {
    /// The state of a root whose construction has completed: the modules
    /// are in place, each on its own region, and the dispatch table binds
    /// each method to one selector of its own. Every root is in this state,
    /// and every method leaves it there.
    #[verifier::type_invariant]
    pub closed spec fn active(self) -> bool {
        &&& self.contract_a.wf()
        &&& self.contract_b.wf()
        &&& self.contract_a.region() == region_a()
        &&& self.contract_b.region() == region_b()
        &&& is_total_binding(self.table@)
    }

    /// The slots of the storage that were written, each with its word.
    pub closed spec fn slots(self) -> Map<u64, Word> {
        self.storage@
    }

    /// The method that answers each selector that the root knows.
    pub closed spec fn routes(self) -> Map<u32, Method> {
        self.table@
    }

    /// The number of module A.
    pub open spec fn num_a(self) -> Word {
        word_at(self.slots(), region_a().offset)
    }

    /// The number of module B.
    pub open spec fn num_b(self) -> Word {
        word_at(self.slots(), region_b().offset)
    }

    /// What the method returns in the present state.
    pub open spec fn answer(self, method: Method) -> Word {
        match method {
            Method::RetNumA => self.num_a(),
            Method::RetNumB => self.num_b(),
            Method::Foofoo => self.num_a(),
        }
    }

    /// Whether a call of `selector` is answered by `method`.
    pub open spec fn routes_to(self, selector: u32, method: Method) -> bool {
        self.routes().contains_key(selector) && self.routes()[selector] == method
    }

    /// Whether some selector leads to `method`.
    pub open spec fn reaches(self, method: Method) -> bool {
        exists|selector: u32| #[trigger] self.routes_to(selector, method)
    }

    /// The dispatch table of a root binds every method once: each method has
    /// a selector that leads to it, and no two selectors lead to one method.
    pub proof fn lemma_every_method_bound_once(self)
        requires
            self.active(),
        ensures
            is_total_binding(self.routes()),
            forall|method: Method| #[trigger] self.reaches(method),
            forall|s1: u32, s2: u32, method: Method|
                #[trigger] self.routes_to(s1, method) && #[trigger] self.routes_to(s2, method)
                    ==> s1 == s2,
    {
        let (a, b, f) = choose|a: u32, b: u32, f: u32|
            a != b && a != f && b != f && self.routes() == #[trigger] routes_of(a, b, f);
        assert forall|method: Method| #[trigger] self.reaches(method) by {
            let selector = match method {
                Method::RetNumA => a,
                Method::RetNumB => b,
                Method::Foofoo => f,
            };
            assert(self.routes_to(selector, method));
        }
    }

    /// In every state of the root its own method `foofoo` answers as
    /// `ret_num_a` does, whether it is called plainly or through the dispatch
    /// table.
    pub proof fn lemma_foofoo_answers_as_ret_num_a(self)
        requires
            self.active(),
        ensures
            self.answer(Method::Foofoo) == self.answer(Method::RetNumA),
    {
    }

    /// What `ret_num_a` answers hangs on the region of module A alone: two
    /// roots whose storages hold the same words there give the same answer,
    /// whatever the rest of their storages holds.
    pub proof fn lemma_ret_num_a_reads_region_a(self, other: Foo)
        requires
            self.active(),
            other.active(),
            agree_on(self.slots(), other.slots(), region_a()),
        ensures
            self.num_a() == other.num_a(),
    {
        assert(region_a().contains(region_a().offset as int));
    }

    /// What `ret_num_b` answers hangs on the region of module B alone.
    pub proof fn lemma_ret_num_b_reads_region_b(self, other: Foo)
        requires
            self.active(),
            other.active(),
            agree_on(self.slots(), other.slots(), region_b()),
        ensures
            self.num_b() == other.num_b(),
    {
        assert(region_b().contains(region_b().offset as int));
    }

    /// The regions of the two modules are those that the allocator assigns
    /// to the declarations of module A and module B, in this order, and they
    /// have no slot in common.
    pub proof fn lemma_module_regions_allocated()
        ensures
            is_packing(seq![region_a(), region_b()], seq![CONTRACT_A_SLOTS, CONTRACT_B_SLOTS]),
            region_a().disjoint(region_b()),
    {
        reveal_with_fuel(packed_offset, 3);
    }

    /// The interfaces that the root implements, in the order in which it
    /// names them.
    pub fn implemented() -> (interfaces: Vec<Interface>)
        ensures
            interfaces@.len() == 2,
            interfaces@[0].name@ == "IContractA"@,
            interfaces@[0].methods@.len() == 1,
            interfaces@[0].methods@[0].signature() == signature_of("retNumA"@, Seq::empty()),
            interfaces@[0].methods@[0].output == ParamType::Uint256,
            interfaces@[1].name@ == "IContractB"@,
            interfaces@[1].methods@.len() == 1,
            interfaces@[1].methods@[0].signature() == signature_of("retNumB"@, Seq::empty()),
            interfaces@[1].methods@[0].output == ParamType::Uint256,
    {
        let mut methods_a: Vec<MethodSig> = Vec::new();
        methods_a.push(MethodSig::new("retNumA", Vec::new(), ParamType::Uint256));
        let mut methods_b: Vec<MethodSig> = Vec::new();
        methods_b.push(MethodSig::new("retNumB", Vec::new(), ParamType::Uint256));
        let mut interfaces: Vec<Interface> = Vec::new();
        interfaces.push(Interface::new("IContractA", methods_a));
        interfaces.push(Interface::new("IContractB", methods_b));
        interfaces
    }

    /// The methods that the root defines itself.
    pub fn own_methods() -> (methods: Vec<MethodSig>)
        ensures
            methods@.len() == 1,
            methods@[0].signature() == signature_of("foofoo"@, Seq::empty()),
            methods@[0].output == ParamType::Uint256,
    {
        let mut methods: Vec<MethodSig> = Vec::new();
        methods.push(MethodSig::new("foofoo", Vec::new(), ParamType::Uint256));
        methods
    }

    /// Puts the root together over `storage`, with the given selectors for
    /// its three methods: lays the modules out in the order A, B and builds
    /// the dispatch table of the three methods.
    ///
    /// Fails when two of the selectors are the same.
    pub fn assemble(storage: Storage, ret_num_a: u32, ret_num_b: u32, foofoo: u32) -> (r: Result<
        Foo,
        Error,
    >)
        ensures
            r is Ok <==> ret_num_a != ret_num_b && ret_num_a != foofoo && ret_num_b != foofoo,
            r matches Ok(foo) ==> {
                &&& foo.active()
                &&& foo.slots() == storage@
                &&& foo.routes() == routes_of(ret_num_a, ret_num_b, foofoo)
                &&& is_total_binding(foo.routes())
            },
            r matches Err(e) ==> e == Error::SelectorCollisionError,
    {
        let mut entries: Vec<DispatchEntry<Method>> = Vec::new();
        entries.push(DispatchEntry { selector: ret_num_a, handler: Method::RetNumA });
        entries.push(DispatchEntry { selector: ret_num_b, handler: Method::RetNumB });
        entries.push(DispatchEntry { selector: foofoo, handler: Method::Foofoo });
        let table = match DispatchTable::build(&entries) {
            Ok(table) => table,
            Err(e) => {
                return Err(e);
            },
        };
        proof {
            reveal_with_fuel(entries_map, 4);
            assert(table@ =~= routes_of(ret_num_a, ret_num_b, foofoo));
        }
        let mut sizes: Vec<u64> = Vec::new();
        sizes.push(CONTRACT_A_SLOTS);
        sizes.push(CONTRACT_B_SLOTS);
        proof {
            reveal_with_fuel(packed_offset, 3);
        }
        let layout = Layout::allocate(&sizes).unwrap();
        let contract_a = ContractA::bind(layout.region(0).unwrap()).unwrap();
        let contract_b = ContractB::bind(layout.region(1).unwrap()).unwrap();
        Ok(Foo { storage, contract_a, contract_b, table })
    }

    /// Puts the root together over `storage`, which keeps what it holds. The
    /// selectors are those of the methods of the implemented interfaces and
    /// of the root's own methods.
    ///
    /// Fails when two of the methods have the same selector.
    pub fn attach(storage: Storage) -> (r: Result<Foo, Error>)
        ensures
            r is Ok <==> ret_num_a_selector() != ret_num_b_selector() && ret_num_a_selector()
                != foofoo_selector() && ret_num_b_selector() != foofoo_selector(),
            r matches Ok(foo) ==> {
                &&& foo.active()
                &&& foo.slots() == storage@
                &&& foo.routes() == routes_of(
                    ret_num_a_selector(),
                    ret_num_b_selector(),
                    foofoo_selector(),
                )
            },
            r matches Err(e) ==> e == Error::SelectorCollisionError,
    {
        let interfaces = Foo::implemented();
        let own = Foo::own_methods();
        let ret_num_a = interfaces[0].methods[0].selector();
        let ret_num_b = interfaces[1].methods[0].selector();
        let foofoo = own[0].selector();
        Foo::assemble(storage, ret_num_a, ret_num_b, foofoo)
    }

    /// Deploys the root on storage of its own, with module A set to `a` and
    /// module B set to `b`.
    ///
    /// Fails when two of the methods have the same selector.
    pub fn deploy(a: Word, b: Word) -> (r: Result<Foo, Error>)
        ensures
            r is Ok <==> ret_num_a_selector() != ret_num_b_selector() && ret_num_a_selector()
                != foofoo_selector() && ret_num_b_selector() != foofoo_selector(),
            r matches Ok(foo) ==> {
                &&& foo.active()
                &&& foo.slots() == Map::<u64, Word>::empty().insert(region_a().offset, a).insert(
                    region_b().offset,
                    b,
                )
                &&& foo.num_a() == a
                &&& foo.num_b() == b
                &&& foo.routes() == routes_of(
                    ret_num_a_selector(),
                    ret_num_b_selector(),
                    foofoo_selector(),
                )
            },
            r matches Err(e) ==> e == Error::SelectorCollisionError,
    {
        let mut foo = match Foo::attach(Storage::new()) {
            Ok(foo) => foo,
            Err(e) => {
                return Err(e);
            },
        };
        foo.set_num_a(a);
        foo.set_num_b(b);
        Ok(foo)
    }

    /// The storage of the contract.
    pub fn storage(&self) -> (storage: &Storage)
        ensures
            storage@ == self.slots(),
    {
        &self.storage
    }

    /// The regions of the modules, in the order in which the root holds
    /// them. They have no slot in common.
    pub fn regions(&self) -> (regions: (Region, Region))
        ensures
            regions.0 == region_a(),
            regions.1 == region_b(),
            regions.0.disjoint(regions.1),
    {
        proof {
            use_type_invariant(self);
        }
        (self.contract_a.owned_region(), self.contract_b.owned_region())
    }

    /// The root's own method: the number of module A, taken by a plain call
    /// of `ret_num_a`.
    pub fn foofoo(&self) -> (r: Word)
        ensures
            r == self.num_a(),
            r == self.answer(Method::Foofoo),
    {
        self.ret_num_a()
    }

    /// Writes the number of module A. Nothing outside the region of module A
    /// changes.
    pub fn set_num_a(&mut self, number: Word)
        ensures
            final(self).active(),
            final(self).slots() == old(self).slots().insert(region_a().offset, number),
            final(self).routes() == old(self).routes(),
            final(self).num_a() == number,
            final(self).num_b() == old(self).num_b(),
            agree_on(final(self).slots(), old(self).slots(), region_b()),
    {
        proof {
            use_type_invariant(&*self);
            lemma_write_stays_in_region(
                self.storage@,
                region_a(),
                region_a().offset,
                number,
                region_b(),
            );
        }
        let mut storage = Storage::new();
        std::mem::swap(&mut storage, &mut self.storage);
        self.contract_a.set_num(&mut storage, number);
        self.storage = storage;
    }

    /// Writes the number of module B. Nothing outside the region of module B
    /// changes.
    pub fn set_num_b(&mut self, number: Word)
        ensures
            final(self).active(),
            final(self).slots() == old(self).slots().insert(region_b().offset, number),
            final(self).routes() == old(self).routes(),
            final(self).num_b() == number,
            final(self).num_a() == old(self).num_a(),
            agree_on(final(self).slots(), old(self).slots(), region_a()),
    {
        proof {
            use_type_invariant(&*self);
            lemma_write_stays_in_region(
                self.storage@,
                region_b(),
                region_b().offset,
                number,
                region_a(),
            );
        }
        let mut storage = Storage::new();
        std::mem::swap(&mut storage, &mut self.storage);
        self.contract_b.set_numb(&mut storage, number);
        self.storage = storage;
    }

    /// Runs `method` by a plain call.
    pub fn invoke(&self, method: Method) -> (r: Word)
        ensures
            r == self.answer(method),
    {
        match method {
            Method::RetNumA => self.ret_num_a(),
            Method::RetNumB => self.ret_num_b(),
            Method::Foofoo => self.foofoo(),
        }
    }

    /// Answers the call of `selector` with the encoded arguments `input`:
    /// looks the selector up in the dispatch table, runs the method found and
    /// hands back its result, encoded.
    ///
    /// The three methods take no arguments, so `input` is not read. A
    /// selector that the table does not know fails the call. Whether the call
    /// fails or not, no slot of the storage changes.
    pub fn call(&mut self, selector: u32, input: &[u8]) -> (r: Result<Vec<u8>, Error>)
        ensures
            final(self).active(),
            final(self).slots() == old(self).slots(),
            final(self).routes() == old(self).routes(),
            r is Ok <==> old(self).routes().contains_key(selector),
            r matches Ok(out) ==> out@ == old(self).answer(
                old(self).routes()[selector],
            ).abi_encoding(),
            r matches Err(e) ==> e == Error::SelectorNotFound,
    {
        proof {
            use_type_invariant(&*self);
        }
        match self.table.lookup(selector) {
            Some(method) => Ok(self.invoke(method).to_abi()),
            None => Err(Error::SelectorNotFound),
        }
    }

    /// Answers a call given as one piece of call data: the selector in the
    /// first four bytes, the most significant first, then the encoded
    /// arguments.
    ///
    /// Call data of fewer than four bytes names no method, and the call fails
    /// as one of an unknown selector does.
    pub fn entrypoint(&mut self, calldata: &[u8]) -> (r: Result<Vec<u8>, Error>)
        ensures
            final(self).active(),
            final(self).slots() == old(self).slots(),
            final(self).routes() == old(self).routes(),
            r is Ok <==> calldata@.len() >= 4 && old(self).routes().contains_key(
                leading_selector(calldata@),
            ),
            r matches Ok(out) ==> out@ == old(self).answer(
                old(self).routes()[leading_selector(calldata@)],
            ).abi_encoding(),
            r matches Err(e) ==> e == Error::SelectorNotFound,
    {
        proof {
            use_type_invariant(&*self);
        }
        match read_selector(calldata) {
            Some(selector) => {
                let input = vstd::slice::slice_subrange(calldata, 4, calldata.len());
                self.call(selector, input)
            },
            None => Err(Error::SelectorNotFound),
        }
    }
}

impl IContractA for Foo {
    /// Reports the number of module A, as module A reads it from its own
    /// region.
    fn ret_num_a(&self) -> (r: Word)
        ensures
            r == self.num_a(),
            r == self.answer(Method::RetNumA),
    {
        proof {
            use_type_invariant(self);
        }
        self.contract_a.ret_num(&self.storage)
    }
}

impl IContractB for Foo {
    /// Reports the number of module B, as module B reads it from its own
    /// region.
    fn ret_num_b(&self) -> (r: Word)
        ensures
            r == self.num_b(),
            r == self.answer(Method::RetNumB),
    {
        proof {
            use_type_invariant(self);
        }
        self.contract_b.ret_numb(&self.storage)
    }
}

} // verus!
