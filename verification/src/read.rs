//! The script that reads from a sequencer: what its arguments mean, and what it
//! says when they mean nothing.

use vstd::prelude::*;
use vstd::string::*;
use crate::text::same_text;

verus! {

/// What the arguments of the script ask for.
#[derive(Clone, Debug)]
pub struct Invocation {
    /// The node to ask.
    pub node: String,
    /// What to ask it for, as JSON.
    pub request: String,
}

/// The contents of an [`Invocation`].
pub struct InvocationView {
    pub node: Seq<char>,
    pub request: Seq<char>,
}

impl View for Invocation {
    type V = InvocationView;

    open spec fn view(&self) -> InvocationView {
        InvocationView { node: self.node@, request: self.request@ }
    }
}

/// What `body` means: the node stands before its first space and the request
/// behind it. The word "our" stands for the own node.
pub open spec fn invocation(body: Seq<char>, our_node: Seq<char>) -> Option<InvocationView> {
    match body.index_of_first(' ') {
        Some(i) => Some(
            InvocationView {
                node: if body.take(i) == "our"@ {
                    our_node
                } else {
                    body.take(i)
                },
                request: body.skip(i + 1),
            },
        ),
        None => None,
    }
}

/// Reads the arguments of the script.
pub fn parse_invocation(body: &str, our_node: &str) -> (r: Option<Invocation>)
    ensures
        match r {
            Some(v) => invocation(body@, our_node@) == Some(v@),
            None => invocation(body@, our_node@) is None,
        },
{
    let n: usize = body.unicode_len();
    let mut i: usize = 0;
    proof {
        body@.index_of_first_ensures(' ');
    }
    while i < n
        invariant
            i <= n,
            n == body@.len(),
            forall|j: int| 0 <= j < i ==> body@[j] != ' ',
            match body@.index_of_first(' ') {
                Some(index) => 0 <= index < body@.len() && body@[index] == ' ' && (forall|j: int|
                    0 <= j < index ==> body@[j] != ' '),
                None => !body@.contains(' '),
            },
        decreases n - i,
    {
        if body.get_char(i) == ' ' {
            let node = body.substring_char(0, i);
            let request = body.substring_char(i + 1, n);
            proof {
                assert(body@.contains(' '));
                let index = body@.index_of_first(' ')->0;
                assert(index == i) by {
                    if index < i {
                        assert(body@[index] != ' ');
                    } else if i < index {
                        assert(body@[i as int] != ' ');
                    }
                }
                assert(node@ =~= body@.take(i as int));
                assert(request@ =~= body@.skip(i + 1));
            }
            let node = if same_text(node, "our") {
                our_node.to_owned()
            } else {
                node.to_owned()
            };
            return Some(Invocation { node, request: request.to_owned() });
        }
        i = i + 1;
    }
    None
}

/// The address of the script in a package.
pub open spec fn script_address(package: Seq<char>) -> Seq<char> {
    "read:"@ + package + ":nick1udwig.os"@
}

/// What the script says of its use.
pub open spec fn usage_text(package: Seq<char>) -> Seq<char> {
    "usage:\n"@ + script_address(package) + " node read_request\ne.g.\n"@ + script_address(package)
        + " our \"Routers\""@
}

/// Tells how the script is used.
pub fn usage(package: &str) -> (r: String)
    ensures
        r@ == usage_text(package@),
{
    let mut script: String = "read:".to_owned();
    script.append(package);
    script.append(":nick1udwig.os");
    let mut r: String = "usage:\n".to_owned();
    r.append(script.as_str());
    r.append(" node read_request\ne.g.\n");
    r.append(script.as_str());
    r.append(" our \"Routers\"");
    r
}

/// The address of the sequencer in a package.
pub open spec fn sequencer_address(package: Seq<char>) -> Seq<char> {
    "sequencer:"@ + package + ":nick1udwig.os"@
}

/// The address of the sequencer to ask.
pub fn target(package: &str) -> (r: String)
    ensures
        r@ == sequencer_address(package@),
{
    let mut r: String = "sequencer:".to_owned();
    r.append(package);
    r.append(":nick1udwig.os");
    r
}

/// Nothing of the arguments is lost: but for the own node, node and request, with
/// the space between them, are what the script was given.
pub proof fn law_invocation_is_split(body: Seq<char>, our_node: Seq<char>)
    ensures
        match invocation(body, our_node) {
            Some(v) => {
                ||| v.node + " "@ + v.request == body
                ||| v.node == our_node && "our"@ + " "@ + v.request == body
            },
            None => !body.contains(' '),
        },
        invocation(body, our_node) is Some && our_node != "our"@ ==> !(
        invocation(body, our_node)->0.node == "our"@),
{
    body.index_of_first_ensures(' ');
    reveal_strlit(" ");
    if let Some(i) = body.index_of_first(' ') {
        assert(body.take(i) + " "@ + body.skip(i + 1) =~= body);
    }
}

/// Every node without a space in its name, other than the word for the own node,
/// can be asked for anything.
pub proof fn law_invocation_is_read_back(
    node: Seq<char>,
    request: Seq<char>,
    our_node: Seq<char>,
)
    requires
        !node.contains(' '),
    ensures
        invocation(node + " "@ + request, our_node) == Some(
            InvocationView {
                node: if node == "our"@ {
                    our_node
                } else {
                    node
                },
                request,
            },
        ),
{
    let body = node + " "@ + request;
    reveal_strlit(" ");
    body.index_of_first_ensures(' ');
    assert(body[node.len() as int] == ' ');
    let index = body.index_of_first(' ')->0;
    assert(index == node.len()) by {
        if index < node.len() {
            assert(node[index] == ' ');
        } else if node.len() < index {
            assert(body[node.len() as int] != ' ');
        }
    }
    assert(body.take(index) =~= node);
    assert(body.skip(index + 1) =~= request);
}

/// The sequencer that is asked is the one of the package, which stands whole in its
/// address, between the name of the process and that of the publisher; so different
/// packages have different sequencers. What the script says of its use names the package
/// in the address of the script, twice.
pub proof fn law_the_package_is_named(package: Seq<char>, other: Seq<char>)
    ensures
        ({
            let address = sequencer_address(package);
            let n = package.len() as int;
            &&& address.take(10) == "sequencer:"@
            &&& address.subrange(10, 10 + n) == package
            &&& address.skip(10 + n) == ":nick1udwig.os"@
        }),
        sequencer_address(package) == sequencer_address(other) ==> package == other,
        usage_text(package) == "usage:\nread:"@ + package + ":nick1udwig.os node read_request\n"@
            + "e.g.\nread:"@ + package + ":nick1udwig.os our \"Routers\""@,
{
    reveal_strlit("sequencer:");
    reveal_strlit(":nick1udwig.os");
    reveal_strlit("usage:\n");
    reveal_strlit("read:");
    reveal_strlit("usage:\nread:");
    reveal_strlit(" node read_request\ne.g.\n");
    reveal_strlit(" our \"Routers\"");
    reveal_strlit(":nick1udwig.os node read_request\n");
    reveal_strlit("e.g.\nread:");
    reveal_strlit(":nick1udwig.os our \"Routers\"");
    let n = package.len() as int;
    let address = sequencer_address(package);
    assert(address.take(10) =~= "sequencer:"@);
    assert(address.subrange(10, 10 + n) =~= package);
    assert(address.skip(10 + n) =~= ":nick1udwig.os"@);
    if address == sequencer_address(other) {
        assert(package.len() == other.len());
        assert(address.subrange(10, 10 + n) =~= other);
    }
    assert("usage:\nread:"@ =~= "usage:\n"@ + "read:"@);
    assert(":nick1udwig.os node read_request\n"@ + "e.g.\nread:"@ =~= ":nick1udwig.os"@
        + " node read_request\ne.g.\n"@ + "read:"@);
    assert(":nick1udwig.os our \"Routers\""@ =~= ":nick1udwig.os"@ + " our \"Routers\""@);
    assert(usage_text(package) =~= "usage:\nread:"@ + package
        + ":nick1udwig.os node read_request\n"@ + "e.g.\nread:"@ + package
        + ":nick1udwig.os our \"Routers\""@);
}

} // verus!
