//! A reflected variable declaration: its name, modifiers, user attributes
//! and default value, as the reflection layer reports them.

use crate::reflection::error::AttributeError;
use crate::reflection::error::ReflectionError;
use crate::reflection::helpers::SlangAttribute;
use crate::reflection::user_attribute::UserAttribute;
use vstd::prelude::*;

verus! {

/// A modifier attached to a declaration, named by its numeric identifier.
#[derive(Clone, Copy, Debug, PartialEq, Eq, Structural)]
pub struct Modifier {
    /// The modifier's identifier.
    pub id: u64,
}

/// A variable declaration as reflection reports it.
pub struct Variable {
    /// The declared name, absent when the native side reports none.
    pub name: Option<String>,
    /// The modifiers attached to the declaration.
    pub modifiers: Vec<Modifier>,
    /// The user attributes attached to the declaration, in order.
    pub user_attributes: Vec<UserAttribute>,
    /// Whether the declaration carries a default value.
    pub has_default: bool,
    /// The default value, where it exists and is an integer.
    pub default_int: Option<i64>,
}

/// The position of the first modifier with the given identifier, from `i`
/// on.
pub open spec fn spec_first_modifier(mods: Seq<Modifier>, id: u64, i: int) -> Option<int>
    decreases mods.len() - i,
{
    if i >= mods.len() {
        None
    } else if mods[i].id == id {
        Some(i)
    } else {
        spec_first_modifier(mods, id, i + 1)
    }
}

/// Whether the attribute carries exactly this name.
pub open spec fn spec_attr_has_name(attr: UserAttribute, name: Seq<char>) -> bool {
    attr.name matches Some(n) && n@ == name
}

/// The position of the first attribute carrying the given name, from `i`
/// on.
pub open spec fn spec_first_attr(attrs: Seq<UserAttribute>, name: Seq<char>, i: int) -> Option<int>
    decreases attrs.len() - i,
{
    if i >= attrs.len() {
        None
    } else if spec_attr_has_name(attrs[i], name) {
        Some(i)
    } else {
        spec_first_attr(attrs, name, i + 1)
    }
}

proof fn lemma_first_modifier_prefix(mods: Seq<Modifier>, id: u64, k: int)
    requires
        0 <= k <= mods.len(),
        forall|j: int| 0 <= j < k ==> (#[trigger] mods[j]).id != id,
    ensures
        spec_first_modifier(mods, id, 0) == spec_first_modifier(mods, id, k),
    decreases k,
{
    if k > 0 {
        lemma_first_modifier_prefix(mods, id, k - 1);
    }
}

proof fn lemma_first_attr_prefix(attrs: Seq<UserAttribute>, name: Seq<char>, k: int)
    requires
        0 <= k <= attrs.len(),
        forall|j: int| 0 <= j < k ==> !spec_attr_has_name(#[trigger] attrs[j], name),
    ensures
        spec_first_attr(attrs, name, 0) == spec_first_attr(attrs, name, k),
    decreases k,
{
    if k > 0 {
        lemma_first_attr_prefix(attrs, name, k - 1);
    }
}

impl Variable {
    /// The native side counts attributes in 32 bits, and every attribute it
    /// hands over is itself within the native limits.
    pub open spec fn wf(self) -> bool {
        self.user_attributes@.len() <= u32::MAX && forall|j: int|
            0 <= j < self.user_attributes@.len() ==> (#[trigger] self.user_attributes@[j]).wf()
    }

    /// Builds a variable from what reflection reports about it.
    pub fn new(
        name: Option<String>,
        modifiers: Vec<Modifier>,
        user_attributes: Vec<UserAttribute>,
        has_default: bool,
        default_int: Option<i64>,
    ) -> (r: Variable)
        requires
            user_attributes@.len() <= u32::MAX,
            forall|j: int|
                0 <= j < user_attributes@.len() ==> (#[trigger] user_attributes@[j]).wf(),
        ensures
            r == (Variable { name, modifiers, user_attributes, has_default, default_int }),
            r.wf(),
    {
        Variable { name, modifiers, user_attributes, has_default, default_int }
    }

    /// The declared name, if the native side reported one.
    pub fn name(&self) -> (r: Option<&str>)
        ensures
            r is Some <==> self.name is Some,
            r matches Some(s) ==> self.name matches Some(n) && s@ == n@,
    {
        match &self.name {
            Some(n) => Some(n.as_str()),
            None => None,
        }
    }

    /// The first modifier with the given identifier, if any is attached.
    #[verifier::loop_isolation(false)]
    pub fn find_modifier(&self, id: u64) -> (r: Option<&Modifier>)
        ensures
            r is Some <==> spec_first_modifier(self.modifiers@, id, 0) is Some,
            r matches Some(m) ==> spec_first_modifier(self.modifiers@, id, 0) matches Some(j) && *m
                == self.modifiers@[j] && m.id == id,
    {
        let mut k: usize = 0;
        while k < self.modifiers.len()
            invariant
                k <= self.modifiers@.len(),
                forall|j: int| 0 <= j < k ==> (#[trigger] self.modifiers@[j]).id != id,
            decreases self.modifiers@.len() - k,
        {
            if self.modifiers[k].id == id {
                proof {
                    lemma_first_modifier_prefix(self.modifiers@, id, k as int);
                }
                return Some(&self.modifiers[k]);
            }
            k = k + 1;
        }
        proof {
            lemma_first_modifier_prefix(self.modifiers@, id, k as int);
        }
        None
    }

    /// How many user attributes the declaration carries.
    pub fn user_attribute_count(&self) -> (r: u32)
        requires
            self.wf(),
        ensures
            r == self.user_attributes@.len(),
    {
        self.user_attributes.len() as u32
    }

    /// The user attribute at `index`, present exactly when the index is in
    /// range.
    pub fn user_attribute_by_index(&self, index: u32) -> (r: Option<&UserAttribute>)
        ensures
            r is Some <==> (index as int) < self.user_attributes@.len(),
            r matches Some(a) ==> *a == self.user_attributes@[index as int],
    {
        if (index as usize) < self.user_attributes.len() {
            Some(&self.user_attributes[index as usize])
        } else {
            None
        }
    }

    /// All user attributes, in declaration order.
    pub fn user_attributes(&self) -> (r: &Vec<UserAttribute>)
        ensures
            r == &self.user_attributes,
    {
        &self.user_attributes
    }

    /// The first user attribute carrying the given name, or a not-found
    /// error naming what was looked for.
    #[verifier::loop_isolation(false)]
    pub fn find_user_attribute_by_name(&self, name: &str) -> (r: Result<
        &UserAttribute,
        ReflectionError,
    >)
        ensures
            r is Ok <==> spec_first_attr(self.user_attributes@, name@, 0) is Some,
            r matches Ok(a) ==> spec_first_attr(self.user_attributes@, name@, 0) matches Some(j)
                && *a == self.user_attributes@[j],
            r matches Err(e) ==> e matches ReflectionError::NotFound(s) && s@ == name@,
    {
        let owned: String = name.to_owned();
        let mut k: usize = 0;
        while k < self.user_attributes.len()
            invariant
                k <= self.user_attributes@.len(),
                forall|j: int|
                    0 <= j < k ==> !spec_attr_has_name(#[trigger] self.user_attributes@[j], name@),
            decreases self.user_attributes@.len() - k,
        {
            let found = match &self.user_attributes[k].name {
                Some(n) => *n == owned,
                None => false,
            };
            if found {
                proof {
                    lemma_first_attr_prefix(self.user_attributes@, name@, k as int);
                }
                return Ok(&self.user_attributes[k]);
            }
            k = k + 1;
        }
        proof {
            lemma_first_attr_prefix(self.user_attributes@, name@, k as int);
        }
        Err(ReflectionError::NotFound(owned))
    }

    /// Whether the declaration carries a default value.
    pub fn has_default_value(&self) -> (r: bool)
        ensures
            r == self.has_default,
    {
        self.has_default
    }

    /// The default value, where it exists and is an integer.
    pub fn default_value_int(&self) -> (r: Option<i64>)
        ensures
            r == self.default_int,
    {
        self.default_int
    }

    /// Extracts a typed attribute from the declaration at the given index:
    /// an out-of-range index is reported as such, and an attribute in range
    /// is handed to the target type's own extraction.
    pub fn extract_attribute<T: SlangAttribute>(&self, index: u32) -> (r: Result<
        T,
        AttributeError,
    >)
        requires
            self.wf(),
        ensures
            (index as int) >= self.user_attributes@.len() ==> r == Err::<T, AttributeError>(
                AttributeError::IndexOutOfBounds {
                    index: index as usize,
                    size: self.user_attributes@.len() as usize,
                },
            ),
    {
        if (index as usize) < self.user_attributes.len() {
            T::from_user_attribute(&self.user_attributes[index as usize])
        } else {
            Err(
                AttributeError::IndexOutOfBounds {
                    index: index as usize,
                    size: self.user_attributes.len(),
                },
            )
        }
    }
}

} // verus!
