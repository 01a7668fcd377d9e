//! The API interception hook for loader-style backends, modeled as plain
//! data: an entry-point resolver is a table from byte-string names to
//! function values, and intercepting initialization substitutes a resolver
//! that forwards every name except the distinguished instance-creation
//! entry point, for which it hands out a wrapper. The wrapper loads the
//! real entry-point table lazily, exactly once, and forwards each call
//! unchanged.

use vstd::prelude::*;

use crate::bytes::bytes_eq;

verus! {

/// The byte string "vkCreateInstance", the distinguished entry point.
pub const VK_CREATE_INSTANCE_NAME: [u8; 16] = [
    118,
    107,
    67,
    114,
    101,
    97,
    116,
    101,
    73,
    110,
    115,
    116,
    97,
    110,
    99,
    101,
];

/// The byte string "vkEnumerateInstanceExtensionProperties".
pub const VK_ENUM_EXTENSION_PROPS_NAME: [u8; 38] = [
    118,
    107,
    69,
    110,
    117,
    109,
    101,
    114,
    97,
    116,
    101,
    73,
    110,
    115,
    116,
    97,
    110,
    99,
    101,
    69,
    120,
    116,
    101,
    110,
    115,
    105,
    111,
    110,
    80,
    114,
    111,
    112,
    101,
    114,
    116,
    105,
    101,
    115,
];

/// The byte string "vkEnumerateInstanceLayerProperties".
pub const VK_ENUM_LAYER_PROPS_NAME: [u8; 34] = [
    118,
    107,
    69,
    110,
    117,
    109,
    101,
    114,
    97,
    116,
    101,
    73,
    110,
    115,
    116,
    97,
    110,
    99,
    101,
    76,
    97,
    121,
    101,
    114,
    80,
    114,
    111,
    112,
    101,
    114,
    116,
    105,
    101,
    115,
];

/// The byte string "vkEnumerateInstanceVersion".
pub const VK_ENUM_VERSION_NAME: [u8; 26] = [
    118,
    107,
    69,
    110,
    117,
    109,
    101,
    114,
    97,
    116,
    101,
    73,
    110,
    115,
    116,
    97,
    110,
    99,
    101,
    86,
    101,
    114,
    115,
    105,
    111,
    110,
];

/// Copies a stored entry-point name into an owned byte string.
fn name_bytes<const N: usize>(name: &[u8; N]) -> (v: Vec<u8>)
    ensures
        v@ == name@,
{
    let mut v: Vec<u8> = Vec::new();
    let mut i: usize = 0;
    while i < N
        invariant
            i <= N,
            v@ == name@.subrange(0, i as int),
        decreases N - i,
    {
        v.push(name[i]);
        assert(v@ =~= name@.subrange(0, i + 1));
        i = i + 1;
    }
    assert(v@ =~= name@);
    v
}

/// One binding of an entry-point resolver: a name and the function value
/// (0 stands for the null function) the resolver hands out for it.
pub struct ResolverEntry {
    pub name: Vec<u8>,
    pub func: u64,
}

/// A host entry-point resolver as data: the first binding of a name wins;
/// an unbound name resolves to the null function.
pub struct Resolver {
    pub entries: Vec<ResolverEntry>,
}

/// First-match lookup over resolver bindings; 0 when no binding matches.
pub open spec fn spec_lookup_seq(entries: Seq<ResolverEntry>, name: Seq<u8>) -> u64
    decreases entries.len(),
{
    if entries.len() == 0 {
        0
    } else if entries[0].name@ == name {
        entries[0].func
    } else {
        spec_lookup_seq(entries.subrange(1, entries.len() as int), name)
    }
}

impl Resolver {
    /// What this resolver hands out for `name`.
    pub open spec fn spec_lookup(self, name: Seq<u8>) -> u64 {
        spec_lookup_seq(self.entries@, name)
    }

    /// A resolver with no bindings.
    pub fn new() -> (r: Resolver)
        ensures
            r.entries@.len() == 0,
    {
        Resolver { entries: Vec::new() }
    }

    /// Adds a binding after the existing ones.
    pub fn bind(&mut self, name: Vec<u8>, func: u64)
        ensures
            final(self).entries@.len() == old(self).entries@.len() + 1,
            final(self).entries@ == old(self).entries@.push(
                ResolverEntry { name: name, func: func },
            ),
    {
        self.entries.push(ResolverEntry { name, func });
    }

    /// Resolves a name: the first matching binding's function value, or the
    /// null function when none matches.
    pub fn lookup(&self, name: &Vec<u8>) -> (r: u64)
        ensures
            r == self.spec_lookup(name@),
    {
        let n = self.entries.len();
        assert(self.entries@.subrange(0, n as int) =~= self.entries@);
        let mut i: usize = 0;
        while i < n
            invariant
                i <= n,
                n == self.entries@.len(),
                spec_lookup_seq(self.entries@, name@) == spec_lookup_seq(
                    self.entries@.subrange(i as int, n as int),
                    name@,
                ),
            decreases n - i,
        {
            proof {
                assert(self.entries@.subrange(i as int, n as int)[0] == self.entries@[i as int]);
                assert(self.entries@.subrange(i as int, n as int).subrange(
                    1,
                    (n - i) as int,
                ) =~= self.entries@.subrange(i + 1 as int, n as int));
            }
            if bytes_eq(&self.entries[i].name, name) {
                return self.entries[i].func;
            }
            i = i + 1;
        }
        assert(self.entries@.subrange(n as int, n as int) =~= Seq::<ResolverEntry>::empty());
        0
    }
}

/// The loaded entry-point table: the instance-level functions the core
/// needs, each as the resolver handed it out.
#[allow(non_camel_case_types)]
#[derive(Clone, Copy, PartialEq, Eq, Structural, Debug)]
pub struct vulkan_functions {
    pub create_instance: u64,
    pub enumerate_instance_extension_properties: u64,
    pub enumerate_instance_layer_properties: u64,
    pub enumerate_instance_version: u64,
}

/// The table a given resolver loads to.
pub open spec fn spec_loaded_table(r: Resolver) -> vulkan_functions {
    vulkan_functions {
        create_instance: r.spec_lookup(VK_CREATE_INSTANCE_NAME@),
        enumerate_instance_extension_properties: r.spec_lookup(VK_ENUM_EXTENSION_PROPS_NAME@),
        enumerate_instance_layer_properties: r.spec_lookup(VK_ENUM_LAYER_PROPS_NAME@),
        enumerate_instance_version: r.spec_lookup(VK_ENUM_VERSION_NAME@),
    }
}

impl Default for vulkan_functions {
    /// The table before anything has been loaded: every entry is the null
    /// function.
    fn default() -> (t: vulkan_functions)
        ensures
            t == (vulkan_functions {
                create_instance: 0,
                enumerate_instance_extension_properties: 0,
                enumerate_instance_layer_properties: 0,
                enumerate_instance_version: 0,
            }),
    {
        vulkan_functions {
            create_instance: 0,
            enumerate_instance_extension_properties: 0,
            enumerate_instance_layer_properties: 0,
            enumerate_instance_version: 0,
        }
    }
}

impl vulkan_functions {
    /// Loads the table by resolving each entry point through the given
    /// resolver.
    pub fn new(resolver: &Resolver) -> (t: vulkan_functions)
        ensures
            t == spec_loaded_table(*resolver),
    {
        let create_instance = resolver.lookup(&name_bytes(&VK_CREATE_INSTANCE_NAME));
        let enumerate_instance_extension_properties = resolver.lookup(
            &name_bytes(&VK_ENUM_EXTENSION_PROPS_NAME),
        );
        let enumerate_instance_layer_properties = resolver.lookup(
            &name_bytes(&VK_ENUM_LAYER_PROPS_NAME),
        );
        let enumerate_instance_version = resolver.lookup(&name_bytes(&VK_ENUM_VERSION_NAME));
        vulkan_functions {
            create_instance,
            enumerate_instance_extension_properties,
            enumerate_instance_layer_properties,
            enumerate_instance_version,
        }
    }

    /// Intercepts initialization: captures the host's real resolver and
    /// hands back the substitute. The entry-point table is not loaded here;
    /// it loads lazily, once, the first time the wrapper runs.
    pub fn intercept_vulkan_initialization(real_get_instance_proc_addr: Resolver) -> (h:
        InstanceHook)
        ensures
            h.real_resolver == real_get_instance_proc_addr,
            h.functions is None,
            h.loads == 0,
    {
        InstanceHook { real_resolver: real_get_instance_proc_addr, functions: None, loads: 0 }
    }
}

/// What the substitute resolver answers for a name.
#[derive(Clone, Copy, PartialEq, Eq, Structural, Debug)]
pub enum Resolution {
    /// The distinguished entry point: the caller gets the wrapper.
    Hooked,
    /// Any other name: the real resolver's answer, passed through.
    Forwarded(u64),
}

/// A call dispatched to the real instance-creation entry point: which
/// function value it reached and the arguments it carried, unchanged.
#[derive(Clone, Copy, PartialEq, Eq, Structural, Debug)]
pub struct DispatchedCall {
    pub target: u64,
    pub create_info: u64,
    pub allocator: u64,
    pub instance_out: u64,
}

/// The substitute resolver's state: the captured real resolver and the
/// lazily loaded table, with a count of how many times loading ran.
pub struct InstanceHook {
    pub real_resolver: Resolver,
    pub functions: Option<vulkan_functions>,
    pub loads: u64,
}

/// How one wrapped instance-creation call transforms the hook and what it
/// dispatches: the table loads now if it never has, and the call reaches
/// the real entry point with its arguments unchanged.
pub open spec fn spec_invoke_create_instance(
    h: InstanceHook,
    create_info: u64,
    allocator: u64,
    instance_out: u64,
) -> (InstanceHook, DispatchedCall) {
    let table = if h.functions is Some {
        h.functions.unwrap()
    } else {
        spec_loaded_table(h.real_resolver)
    };
    let loads = if h.functions is Some {
        h.loads
    } else {
        (h.loads + 1) as u64
    };
    (
        InstanceHook { real_resolver: h.real_resolver, functions: Some(table), loads },
        DispatchedCall { target: table.create_instance, create_info, allocator, instance_out },
    )
}

impl InstanceHook {
    /// The substitute resolver: hands out the wrapper for the distinguished
    /// instance-creation name and forwards every other name through the
    /// real resolver.
    pub fn hook_vk_get_instance_proc_addr(&self, func_name: &Vec<u8>) -> (r: Resolution)
        ensures
            func_name@ == VK_CREATE_INSTANCE_NAME@ ==> r is Hooked,
            func_name@ != VK_CREATE_INSTANCE_NAME@ ==> r == Resolution::Forwarded(
                self.real_resolver.spec_lookup(func_name@),
            ),
    {
        let hooked_name = name_bytes(&VK_CREATE_INSTANCE_NAME);
        if bytes_eq(func_name, &hooked_name) {
            Resolution::Hooked
        } else {
            Resolution::Forwarded(self.real_resolver.lookup(func_name))
        }
    }

    /// The wrapper around instance creation: loads the real entry-point
    /// table if this is the first call, then forwards the call unchanged.
    pub fn hook_vk_create_instance(
        &mut self,
        create_info: u64,
        allocator: u64,
        instance_out: u64,
    ) -> (r: DispatchedCall)
        requires
            old(self).loads < u64::MAX,
        ensures
            (*final(self), r) == spec_invoke_create_instance(
                *old(self),
                create_info,
                allocator,
                instance_out,
            ),
    {
        if self.functions.is_none() {
            let t = vulkan_functions::new(&self.real_resolver);
            self.functions = Some(t);
            self.loads = self.loads + 1;
        }
        let target = match &self.functions {
            Some(t) => t.create_instance,
            None => 0,
        };
        DispatchedCall { target, create_info, allocator, instance_out }
    }
}

/// Intercept, then run the wrapped instance-creation entry point twice: the
/// real table loads exactly once — the second call does not reload — and
/// both calls reach the real instance-creation function with their
/// arguments unchanged.
pub proof fn lemma_table_loads_once(
    real_resolver: Resolver,
    first_args: (u64, u64, u64),
    second_args: (u64, u64, u64),
)
    ensures
        ({
            let h0 = InstanceHook { real_resolver: real_resolver, functions: None, loads: 0 };
            let (h1, c1) = spec_invoke_create_instance(
                h0,
                first_args.0,
                first_args.1,
                first_args.2,
            );
            let (h2, c2) = spec_invoke_create_instance(
                h1,
                second_args.0,
                second_args.1,
                second_args.2,
            );
            &&& h1.loads == 1
            &&& h2.loads == 1
            &&& h1.functions == Some(spec_loaded_table(real_resolver))
            &&& h2.functions == Some(spec_loaded_table(real_resolver))
            &&& c1 == (DispatchedCall {
                target: spec_loaded_table(real_resolver).create_instance,
                create_info: first_args.0,
                allocator: first_args.1,
                instance_out: first_args.2,
            })
            &&& c2 == (DispatchedCall {
                target: spec_loaded_table(real_resolver).create_instance,
                create_info: second_args.0,
                allocator: second_args.1,
                instance_out: second_args.2,
            })
        }),
{
}

} // verus!
