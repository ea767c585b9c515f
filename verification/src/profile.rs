use crate::document::{
    field_name, lemma_field_names_differ, optional_text, read_optional_text, read_text,
    required_text, text_view, Field, ShapeFault,
};
use crate::json::{lemma_object_view, member, member_from, Json, JsonView, Member, MemberView};
use crate::text::same_text;
use vstd::prelude::*;
use vstd::string::*;

verus! {

/// A named connection preset.
#[derive(Debug, PartialEq, Eq)]
pub struct Profile {
    /// The remote login name.
    pub username: String,
    /// The target host: an IP address or a host name.
    pub address: String,
    /// The signing role under which a certificate is asked for.
    pub role: String,
    /// The private key's path, where one was chosen.
    pub private_key: Option<String>,
    /// The path of the public key to be signed, where one was chosen.
    pub public_key: Option<String>,
    /// Extra arguments for the session command, separated by white space.
    pub options: String,
}

/// The mathematical value of a profile.
pub ghost struct ProfileView {
    pub username: Seq<char>,
    pub address: Seq<char>,
    pub role: Seq<char>,
    pub private_key: Option<Seq<char>>,
    pub public_key: Option<Seq<char>>,
    pub options: Seq<char>,
}

impl View for Profile {
    type V = ProfileView;

    open spec fn view(&self) -> ProfileView {
        ProfileView {
            username: self.username@,
            address: self.address@,
            role: self.role@,
            private_key: text_view(self.private_key),
            public_key: text_view(self.public_key),
            options: self.options@,
        }
    }
}

/// A copy of a text that may be absent.
pub fn clone_text(text: &Option<String>) -> (r: Option<String>)
    ensures
        text_view(r) == text_view(*text),
{
    match text {
        Some(t) => Some(t.clone()),
        None => None,
    }
}

impl Clone for Profile {
    fn clone(&self) -> (r: Self)
        ensures
            r@ == self@,
    {
        Profile {
            username: self.username.clone(),
            address: self.address.clone(),
            role: self.role.clone(),
            private_key: clone_text(&self.private_key),
            public_key: clone_text(&self.public_key),
            options: self.options.clone(),
        }
    }
}

/// A profile under its name.
#[derive(Debug)]
pub struct ProfileEntry {
    pub name: String,
    pub profile: Profile,
}

/// The profiles of a configuration, each under its own name and in the order in which
/// the names came in.
#[derive(Debug)]
pub struct ProfileMap {
    entries: Vec<ProfileEntry>,
}

/// The names of some entries, in order.
pub open spec fn names_of(entries: Seq<ProfileEntry>) -> Seq<Seq<char>> {
    Seq::new(entries.len(), |i: int| entries[i].name@)
}

impl View for ProfileMap {
    type V = Map<Seq<char>, ProfileView>;

    open spec fn view(&self) -> Map<Seq<char>, ProfileView> {
        self.map()
    }
}

impl ProfileMap {
    /// The names in their order.
    pub closed spec fn names(&self) -> Seq<Seq<char>> {
        names_of(self.entries@)
    }

    /// Each name with its profile.
    pub closed spec fn map(&self) -> Map<Seq<char>, ProfileView> {
        Map::new(
            |name: Seq<char>| self.names().contains(name),
            |name: Seq<char>| self.entries@[self.names().index_of(name)].profile@,
        )
    }

    /// No name stands twice.
    #[verifier::type_invariant]
    pub closed spec fn wf(&self) -> bool {
        self.names().no_duplicates()
    }

    /// The names are those under which a profile stands, each once.
    pub proof fn lemma_names(&self)
        requires
            self.wf(),
        ensures
            self.names().no_duplicates(),
            self@.dom().finite(),
            self@.dom() == self.names().to_set(),
            self@.len() == self.names().len(),
            forall|name: Seq<char>| self.names().contains(name) <==> self@.contains_key(name),
    {
        assert(self@.dom() =~= self.names().to_set());
        self.names().unique_seq_to_set();
    }

    /// No profiles.
    pub fn new() -> (r: Self)
        ensures
            r@ == Map::<Seq<char>, ProfileView>::empty(),
            r.names() == Seq::<Seq<char>>::empty(),
            r.wf(),
    {
        let r = ProfileMap { entries: Vec::new() };
        assert(r.names() =~= Seq::<Seq<char>>::empty());
        assert(r@ =~= Map::<Seq<char>, ProfileView>::empty());
        r
    }

    /// Where a name stands, if it does.
    fn position(&self, name: &str) -> (r: Option<usize>)
        ensures
            match r {
                Some(i) => i < self.names().len() && self.names()[i as int] == name@,
                None => !self.names().contains(name@),
            },
    {
        let mut i: usize = 0;
        while i < self.entries.len()
            invariant
                i <= self.entries.len(),
                forall|k: int| 0 <= k < i ==> self.names()[k] != name@,
            decreases self.entries.len() - i,
        {
            if same_text(self.entries[i].name.as_str(), name) {
                return Some(i);
            }
            i += 1;
        }
        None
    }

    /// How many profiles there are.
    pub fn len(&self) -> (r: usize)
        ensures
            r == self@.len(),
            r == self.names().len(),
    {
        proof {
            use_type_invariant(self);
            self.lemma_names();
        }
        self.entries.len()
    }

    /// Whether there is no profile.
    pub fn is_empty(&self) -> (r: bool)
        ensures
            r == (self@.len() == 0),
            r == (self@ == Map::<Seq<char>, ProfileView>::empty()),
    {
        proof {
            use_type_invariant(self);
            self.lemma_names();
            if self@.len() == 0 {
                assert(self@ =~= Map::<Seq<char>, ProfileView>::empty());
            }
        }
        self.entries.len() == 0
    }

    /// Whether a profile stands under `name`.
    pub fn contains_key(&self, name: &str) -> (r: bool)
        ensures
            r == self@.contains_key(name@),
    {
        self.position(name).is_some()
    }

    /// The profile that stands under `name`.
    pub fn get(&self, name: &str) -> (r: Option<&Profile>)
        ensures
            match r {
                Some(profile) => self@.contains_key(name@) && profile@ == self@[name@],
                None => !self@.contains_key(name@),
            },
    {
        match self.position(name) {
            Some(i) => {
                proof {
                    use_type_invariant(self);
                    let j = self.names().index_of(name@);
                    assert(self.names()[j] == name@);
                }
                Some(&self.entries[i].profile)
            },
            None => None,
        }
    }

    /// Puts `profile` under `name`. A profile that stood there before is replaced, in its
    /// place; a new name goes last.
    pub fn insert(&mut self, name: String, profile: Profile)
        ensures
            final(self)@ == old(self)@.insert(name@, profile@),
            final(self).names() == if old(self)@.contains_key(name@) {
                old(self).names()
            } else {
                old(self).names().push(name@)
            },
            final(self).wf(),
    {
        proof {
            use_type_invariant(&*self);
        }
        let ghost before = *self;
        match self.position(name.as_str()) {
            Some(i) => {
                let entry = ProfileEntry { name, profile };
                // The entries change outside `self`, which holds none meanwhile.
                let mut entries: Vec<ProfileEntry> = Vec::new();
                std::mem::swap(&mut self.entries, &mut entries);
                entries.set(i, entry);
                proof {
                    assert(names_of(entries@) =~= before.names());
                }
                std::mem::swap(&mut self.entries, &mut entries);
                proof {
                    assert(self.names() =~= before.names());
                    assert forall|n: Seq<char>| self.names().contains(n) implies #[trigger] self@[n]
                        == before@.insert(name@, profile@)[n] by {
                        let j = self.names().index_of(n);
                        let k = before.names().index_of(n);
                        assert(self.names()[j] == n);
                        assert(before.names()[k] == n);
                    }
                    assert(self@ =~= before@.insert(name@, profile@));
                }
            },
            None => {
                let entry = ProfileEntry { name, profile };
                // The entries change outside `self`, which holds none meanwhile.
                let mut entries: Vec<ProfileEntry> = Vec::new();
                std::mem::swap(&mut self.entries, &mut entries);
                entries.push(entry);
                proof {
                    assert(names_of(entries@) =~= before.names().push(name@));
                }
                std::mem::swap(&mut self.entries, &mut entries);
                proof {
                    assert(self.names() =~= before.names().push(name@));
                    assert forall|n: Seq<char>| self.names().contains(n) implies #[trigger] self@[n]
                        == before@.insert(name@, profile@)[n] by {
                        let j = self.names().index_of(n);
                        assert(self.names()[j] == n);
                        if n != name@ {
                            let k = before.names().index_of(n);
                            assert(before.names().contains(n)) by {
                                assert(before.names()[j] == n);
                            }
                            assert(before.names()[k] == n);
                        }
                    }
                    assert forall|n: Seq<char>|
                        self.names().contains(n) <==> before@.insert(name@, profile@).contains_key(
                            n,
                        ) by {
                        if self.names().contains(n) {
                            let j = self.names().index_of(n);
                            assert(self.names()[j] == n);
                            if j < before.names().len() {
                                assert(before.names()[j] == n);
                            }
                        }
                        if before.names().contains(n) {
                            let k = before.names().index_of(n);
                            assert(before.names()[k] == n);
                            assert(self.names()[k] == n);
                        }
                        if n == name@ {
                            assert(self.names()[before.names().len() as int] == n);
                        }
                    }
                    assert(self@ =~= before@.insert(name@, profile@));
                }
            },
        }
    }

    /// Takes the profile under `name` away, if there is one; the other names keep their
    /// order.
    pub fn remove(&mut self, name: &str)
        ensures
            final(self)@ == old(self)@.remove(name@),
            final(self).names() == if old(self)@.contains_key(name@) {
                old(self).names().remove(old(self).names().index_of(name@))
            } else {
                old(self).names()
            },
            final(self).wf(),
    {
        proof {
            use_type_invariant(&*self);
        }
        let ghost before = *self;
        match self.position(name) {
            Some(i) => {
                proof {
                    let j = before.names().index_of(name@);
                    assert(before.names()[j] == name@);
                    assert(j == i);
                }
                // The entries change outside `self`, which holds none meanwhile.
                let mut entries: Vec<ProfileEntry> = Vec::new();
                std::mem::swap(&mut self.entries, &mut entries);
                entries.remove(i);
                proof {
                    assert(names_of(entries@) =~= before.names().remove(i as int));
                    let after = names_of(entries@);
                    assert forall|a: int, b: int|
                        0 <= a < after.len() && 0 <= b < after.len() && a != b implies after[a]
                        != after[b] by {
                        let a0 = if a < i { a } else { a + 1 };
                        let b0 = if b < i { b } else { b + 1 };
                        assert(after[a] == before.names()[a0]);
                        assert(after[b] == before.names()[b0]);
                    }
                }
                std::mem::swap(&mut self.entries, &mut entries);
                proof {
                    let after = self.names();
                    assert forall|n: Seq<char>| after.contains(n) <==> before@.remove(
                        name@,
                    ).contains_key(n) by {
                        if after.contains(n) {
                            let a = after.index_of(n);
                            assert(after[a] == n);
                            let a0 = if a < i { a } else { a + 1 };
                            assert(before.names()[a0] == n);
                        }
                        if before.names().contains(n) && n != name@ {
                            let k = before.names().index_of(n);
                            assert(before.names()[k] == n);
                            let k1 = if k < i { k } else { k - 1 };
                            assert(after[k1] == n);
                        }
                    }
                    assert forall|n: Seq<char>| after.contains(n) implies #[trigger] self@[n]
                        == before@.remove(name@)[n] by {
                        let a = after.index_of(n);
                        assert(after[a] == n);
                        let a0 = if a < i { a } else { a + 1 };
                        assert(before.names()[a0] == n);
                        let k = before.names().index_of(n);
                        assert(before.names()[k] == n);
                        assert(k == a0);
                    }
                    assert(self@ =~= before@.remove(name@));
                }
            },
            None => {
                proof {
                    assert(self@ =~= before@.remove(name@));
                }
            },
        }
    }

    /// The names, in their order.
    pub fn keys(&self) -> (r: Vec<String>)
        ensures
            r.deep_view() == self.names(),
    {
        let mut out: Vec<String> = Vec::new();
        let mut i: usize = 0;
        while i < self.entries.len()
            invariant
                i <= self.entries.len(),
                out.deep_view() == self.names().take(i as int),
            decreases self.entries.len() - i,
        {
            let ghost before = out.deep_view();
            out.push(self.entries[i].name.clone());
            assert(out.deep_view() =~= before.push(self.names()[i as int]));
            assert(self.names().take(i as int + 1) =~= self.names().take(i as int).push(
                self.names()[i as int],
            ));
            i += 1;
        }
        assert(self.names().take(self.entries.len() as int) == self.names());
        out
    }

    /// The name in place `i`, and the profile under it.
    pub fn entry_at(&self, i: usize) -> (r: (&String, &Profile))
        requires
            i < self.names().len(),
        ensures
            r.0@ == self.names()[i as int],
            self@.contains_key(r.0@),
            r.1@ == self@[r.0@],
    {
        proof {
            use_type_invariant(self);
            let n = self.names()[i as int];
            let j = self.names().index_of(n);
            assert(self.names()[j] == n);
        }
        (&self.entries[i].name, &self.entries[i].profile)
    }
}

/// A text that may be absent, as a document: the text, or `null`.
pub open spec fn optional_json(text: Option<Seq<char>>) -> JsonView {
    match text {
        Some(t) => JsonView::Text(t),
        None => JsonView::Null,
    }
}

/// A member that holds a text.
pub open spec fn text_member(field: Field, text: Seq<char>) -> MemberView {
    MemberView { name: field_name(field), value: JsonView::Text(text) }
}

/// The document that stands for a profile: an object of its six members.
pub open spec fn encode_profile(profile: ProfileView) -> JsonView {
    JsonView::Object(
        seq![
            text_member(Field::Username, profile.username),
            text_member(Field::Address, profile.address),
            text_member(Field::Role, profile.role),
            MemberView {
                name: field_name(Field::PrivateKey),
                value: optional_json(profile.private_key),
            },
            MemberView {
                name: field_name(Field::PublicKey),
                value: optional_json(profile.public_key),
            },
            text_member(Field::Options, profile.options),
        ],
    )
}

/// The profile that a document stands for, or the first fault met: `username`,
/// `address`, `role` and `options` must be there as texts, `private_key` and
/// `public_key` may be left out or `null`. Members of other names are passed over.
pub open spec fn decode_profile(doc: JsonView) -> Result<ProfileView, ShapeFault> {
    if !(doc is Object) {
        Err(ShapeFault::NotAnObject)
    } else if required_text(doc, Field::Username) is Err {
        Err(required_text(doc, Field::Username)->Err_0)
    } else if required_text(doc, Field::Address) is Err {
        Err(required_text(doc, Field::Address)->Err_0)
    } else if required_text(doc, Field::Role) is Err {
        Err(required_text(doc, Field::Role)->Err_0)
    } else if optional_text(doc, Field::PrivateKey) is Err {
        Err(optional_text(doc, Field::PrivateKey)->Err_0)
    } else if optional_text(doc, Field::PublicKey) is Err {
        Err(optional_text(doc, Field::PublicKey)->Err_0)
    } else if required_text(doc, Field::Options) is Err {
        Err(required_text(doc, Field::Options)->Err_0)
    } else {
        Ok(
            ProfileView {
                username: required_text(doc, Field::Username)->Ok_0,
                address: required_text(doc, Field::Address)->Ok_0,
                role: required_text(doc, Field::Role)->Ok_0,
                private_key: optional_text(doc, Field::PrivateKey)->Ok_0,
                public_key: optional_text(doc, Field::PublicKey)->Ok_0,
                options: required_text(doc, Field::Options)->Ok_0,
            },
        )
    }
}

/// A profile that was written down reads back as itself.
pub proof fn lemma_profile_round_trip(profile: ProfileView)
    ensures
        decode_profile(encode_profile(profile)) == Ok::<ProfileView, ShapeFault>(profile),
{
    let doc = encode_profile(profile);
    let members = doc->Object_0;
    reveal_with_fuel(member_from, 7);
    lemma_field_names_differ(Field::Username, Field::Address);
    lemma_field_names_differ(Field::Username, Field::Role);
    lemma_field_names_differ(Field::Username, Field::PrivateKey);
    lemma_field_names_differ(Field::Username, Field::PublicKey);
    lemma_field_names_differ(Field::Username, Field::Options);
    lemma_field_names_differ(Field::Address, Field::Role);
    lemma_field_names_differ(Field::Address, Field::PrivateKey);
    lemma_field_names_differ(Field::Address, Field::PublicKey);
    lemma_field_names_differ(Field::Address, Field::Options);
    lemma_field_names_differ(Field::Role, Field::PrivateKey);
    lemma_field_names_differ(Field::Role, Field::PublicKey);
    lemma_field_names_differ(Field::Role, Field::Options);
    lemma_field_names_differ(Field::PrivateKey, Field::PublicKey);
    lemma_field_names_differ(Field::PrivateKey, Field::Options);
    lemma_field_names_differ(Field::PublicKey, Field::Options);
    assert(member(doc, field_name(Field::Username)) == Some(JsonView::Text(profile.username)));
    assert(member(doc, field_name(Field::Address)) == Some(JsonView::Text(profile.address)));
    assert(member(doc, field_name(Field::Role)) == Some(JsonView::Text(profile.role)));
    assert(member(doc, field_name(Field::PrivateKey)) == Some(
        optional_json(profile.private_key),
    ));
    assert(member(doc, field_name(Field::PublicKey)) == Some(optional_json(profile.public_key)));
    assert(member(doc, field_name(Field::Options)) == Some(JsonView::Text(profile.options)));
}

/// A text that may be absent, as a document.
pub fn optional_to_json(text: &Option<String>) -> (r: Json)
    ensures
        r@ == optional_json(text_view(*text)),
{
    match text {
        Some(t) => Json::Text(t.clone()),
        None => Json::Null,
    }
}

/// A member that holds a text.
pub fn text_to_member(field: Field, text: &String) -> (r: Member)
    ensures
        r.name@ == field_name(field),
        r.value@ == JsonView::Text(text@),
{
    Member { name: String::from_str(field.name()), value: Json::Text(text.clone()) }
}

impl Profile {
    /// Writes the profile down as a document.
    pub fn to_json(&self) -> (r: Json)
        ensures
            r@ == encode_profile(self@),
    {
        let mut members: Vec<Member> = Vec::new();
        members.push(text_to_member(Field::Username, &self.username));
        members.push(text_to_member(Field::Address, &self.address));
        members.push(text_to_member(Field::Role, &self.role));
        members.push(
            Member {
                name: String::from_str(Field::PrivateKey.name()),
                value: optional_to_json(&self.private_key),
            },
        );
        members.push(
            Member {
                name: String::from_str(Field::PublicKey.name()),
                value: optional_to_json(&self.public_key),
            },
        );
        members.push(text_to_member(Field::Options, &self.options));
        proof {
            lemma_object_view(members);
            assert(Json::Object(members)@->Object_0 =~= encode_profile(self@)->Object_0);
        }
        Json::Object(members)
    }

    /// Reads a profile from a document.
    pub fn from_json(doc: &Json) -> (r: Result<Profile, ShapeFault>)
        ensures
            match r {
                Ok(profile) => decode_profile(doc@) == Ok::<ProfileView, ShapeFault>(profile@),
                Err(fault) => decode_profile(doc@) == Err::<ProfileView, ShapeFault>(fault),
            },
    {
        if doc.as_object().is_none() {
            return Err(ShapeFault::NotAnObject);
        }
        let username = match read_text(doc, Field::Username) {
            Ok(text) => text,
            Err(fault) => {
                return Err(fault);
            },
        };
        let address = match read_text(doc, Field::Address) {
            Ok(text) => text,
            Err(fault) => {
                return Err(fault);
            },
        };
        let role = match read_text(doc, Field::Role) {
            Ok(text) => text,
            Err(fault) => {
                return Err(fault);
            },
        };
        let private_key = match read_optional_text(doc, Field::PrivateKey) {
            Ok(text) => text,
            Err(fault) => {
                return Err(fault);
            },
        };
        let public_key = match read_optional_text(doc, Field::PublicKey) {
            Ok(text) => text,
            Err(fault) => {
                return Err(fault);
            },
        };
        let options = match read_text(doc, Field::Options) {
            Ok(text) => text,
            Err(fault) => {
                return Err(fault);
            },
        };
        Ok(Profile { username, address, role, private_key, public_key, options })
    }
}

} // verus!
