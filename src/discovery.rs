use vstd::prelude::*;

verus! {

/// Number of characters in the suffix `.wasm` that marks a plugin binary.
pub const SUFFIX_LEN: usize = 5;

/// A file name is a plugin binary when its extension is `wasm`: it ends in
/// `.wasm` and at least one character stands before that dot (a name such as
/// `.wasm` is a hidden file without an extension).
pub open spec fn is_plugin_file_name(name: Seq<char>) -> bool {
    let n = name.len();
    n > 5 && name[n - 5] == '.' && name[n - 4] == 'w' && name[n - 3] == 'a' && name[n - 2] == 's'
        && name[n - 1] == 'm'
}

/// The identifier of a plugin file: its name without the extension.
pub open spec fn plugin_stem(name: Seq<char>) -> Seq<char> {
    name.subrange(0, name.len() - 5)
}

/// The plugin file names among `names`, in listing order.
pub open spec fn plugin_names(names: Seq<Seq<char>>) -> Seq<Seq<char>>
    decreases names.len(),
{
    if names.len() == 0 {
        Seq::empty()
    } else {
        let rest = plugin_names(names.drop_last());
        if is_plugin_file_name(names.last()) {
            rest.push(names.last())
        } else {
            rest
        }
    }
}

/// `i` is the first position at which `exists` holds.
pub open spec fn is_first_existing(exists: Seq<bool>, i: int) -> bool {
    0 <= i < exists.len() && exists[i] && forall|j: int| 0 <= j < i ==> !exists[j]
}

/// A plugin file found on disk: its file name and the identifier taken from it.
pub struct PluginDescriptor {
    pub file_name: String,
    pub id: String,
}

impl PluginDescriptor {
    pub open spec fn wf(&self) -> bool {
        &&& is_plugin_file_name(self.file_name@)
        &&& self.id@ == plugin_stem(self.file_name@)
    }
}

/// Whether a directory entry named `name` is a plugin binary.
pub fn is_plugin_file(name: &str) -> (r: bool)
    ensures
        r == is_plugin_file_name(name@),
{
    let n = name.unicode_len();
    if n <= SUFFIX_LEN {
        return false;
    }
    name.get_char(n - 5) == '.' && name.get_char(n - 4) == 'w' && name.get_char(n - 3) == 'a'
        && name.get_char(n - 2) == 's' && name.get_char(n - 1) == 'm'
}

/// The descriptor of the plugin file `name`, or `None` when it is no plugin binary.
pub fn describe(name: &str) -> (r: Option<PluginDescriptor>)
    ensures
        r is Some <==> is_plugin_file_name(name@),
        r matches Some(d) ==> d.wf() && d.file_name@ == name@,
{
    if !is_plugin_file(name) {
        return None;
    }
    let n = name.unicode_len();
    let stem = name.substring_char(0, n - SUFFIX_LEN);
    Some(PluginDescriptor { file_name: name.to_string(), id: stem.to_string() })
}

/// Picks the plugin directory: the first candidate that exists, `None` when none does.
/// `exists[i]` tells whether the `i`-th candidate, in search order, is on disk.
pub fn select_plugin_dir(exists: &Vec<bool>) -> (r: Option<usize>)
    ensures
        r matches Some(i) ==> is_first_existing(exists@, i as int),
        r is None <==> forall|j: int| 0 <= j < exists@.len() ==> !exists@[j],
{
    let mut i: usize = 0;
    while i < exists.len()
        invariant
            i <= exists@.len(),
            forall|j: int| 0 <= j < i ==> !exists@[j],
        decreases exists@.len() - i,
    {
        if exists[i] {
            return Some(i);
        }
        i = i + 1;
    }
    None
}

/// One descriptor for each plugin binary among the entry names of a directory,
/// in listing order; other entries are passed over.
pub fn discover(names: &Vec<String>) -> (r: Vec<PluginDescriptor>)
    ensures
        r@.map_values(|d: PluginDescriptor| d.file_name@) == plugin_names(
            names@.map_values(|s: String| s@),
        ),
        forall|k: int| 0 <= k < r@.len() ==> #[trigger] r@[k].wf(),
        names@.len() == 0 ==> r@.len() == 0,
{
    let ghost views = names@.map_values(|s: String| s@);
    let mut out: Vec<PluginDescriptor> = Vec::new();
    let mut i: usize = 0;
    while i < names.len()
        invariant
            i <= names@.len(),
            views == names@.map_values(|s: String| s@),
            out@.map_values(|d: PluginDescriptor| d.file_name@) == plugin_names(
                views.subrange(0, i as int),
            ),
            forall|k: int| 0 <= k < out@.len() ==> #[trigger] out@[k].wf(),
        decreases names@.len() - i,
    {
        proof {
            let prefix = views.subrange(0, i as int + 1);
            assert(prefix.drop_last() =~= views.subrange(0, i as int));
            assert(prefix.last() == names@[i as int]@);
        }
        match describe(names[i].as_str()) {
            Some(d) => {
                let ghost before = out@;
                out.push(d);
                proof {
                    assert(out@.map_values(|d: PluginDescriptor| d.file_name@) =~= before.map_values(
                        |d: PluginDescriptor| d.file_name@,
                    ).push(names@[i as int]@));
                }
            },
            None => {},
        }
        i = i + 1;
    }
    proof {
        assert(views.subrange(0, names@.len() as int) =~= views);
    }
    out
}

} // verus!
