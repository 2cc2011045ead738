//!A graph-based system for tracking the states of mechanical components throughout a robot.
//!
//!The system uses a set of *devices*, each of which is allowed to read and write to a specific set
//!of *nodes*. Nodes, their states, and connections between them are managed by the [`System`];
//!devices read and write to nodes using [`NodeID`]s provided by it. `NodeID`s issued by a `System`
//!must only be used with that same `System`.
//!
//!Connected nodes form chains, each a doubly linked list kept in the system's array of nodes. A
//!chain is known by its first node, its *root*. The system is generic over the type of the
//!states `S` that nodes hold and the type of the commands `C` that the first node of a chain may
//!carry; averaging states is left to the user of the system.
use vstd::prelude::*;
use crate::error::NothingOrError;

pub mod wrappers;

verus! {

///A unique identifier for a node of a [`System`]. `NodeID` is used to interact with nodes through
///the `System`, which is the only issuer of them.
#[derive(Clone, Copy, Debug, PartialEq, Eq, Structural)]
pub struct NodeID {
    system: u16,
    node: usize,
}

impl NodeID {
    ///The identifier of the system that issued the node.
    pub closed spec fn system(self) -> u16 {
        self.system
    }

    ///The place of the node in its system.
    pub closed spec fn index(self) -> int {
        self.node as int
    }

    fn new(system: u16, node: usize) -> (r: Self)
        ensures
            r.system() == system,
            r.index() == node,
    {
        NodeID { system, node }
    }

    ///Checks whether two `NodeID`s were issued by the same [`System`]. This is different from
    ///`==`, which also checks if the `NodeID`s refer to the same node.
    pub fn same_system(&self, other: Self) -> (r: bool)
        ensures
            r == (self.system() == other.system()),
    {
        self.system == other.system
    }
}

///What comes before a node in its chain.
#[derive(Clone, Copy, Debug, PartialEq, Eq)]
pub enum Previous<C> {
    ///The node at this place comes before.
    PreviousNode(usize),
    ///The node is the first of its chain and carries no command.
    BeginningNoCommand,
    ///The node is the first of its chain and carries a command.
    BeginningWithCommand(C),
}

#[derive(Clone, Copy, Debug)]
struct Node<S, C> {
    prev: Previous<C>,
    next: Option<usize>,
    state_local: Option<S>,
}

impl<S, C> Node<S, C> {
    ///A node that is alone in its chain and has no state.
    fn new() -> (r: Self)
        ensures
            r.prev == Previous::<C>::BeginningNoCommand,
            r.next == None::<usize>,
            r.state_local == None::<S>,
    {
        Node { prev: Previous::BeginningNoCommand, next: None, state_local: None }
    }
}

///A struct that tracks the states of axles throughout a robot. It is based on a system of nodes
///that can be connected. `N` is the maximum number of nodes. The structure is implemented using a
///form of doubly linked list.
pub struct System<const N: usize, S, C> {
    system_id: u16,
    nodes: Vec<Option<Node<S, C>>>,
    ///The root of the chain of each node.
    root: Ghost<Seq<int>>,
    ///The number of nodes before each node in its chain.
    pos: Ghost<Seq<nat>>,
    ///The number of nodes after each node in its chain.
    dist: Ghost<Seq<nat>>,
}

impl<const N: usize, S: Copy, C: Copy> System<N, S, C> {
    ///The links at place `i` agree with those of its neighbors, and the ghost positions, distances
    ///to the end and roots follow them.
    spec fn node_ok(self, i: int) -> bool {
        self.next_ok(i) && self.prev_ok(i)
    }

    spec fn next_ok(self, i: int) -> bool {
        let n = self.nodes@[i].unwrap();
        match n.next {
            Some(j) => {
                &&& j < N
                &&& self.nodes@[j as int] is Some
                &&& self.nodes@[j as int].unwrap().prev == Previous::<C>::PreviousNode(i as usize)
                &&& self.pos@[j as int] == self.pos@[i] + 1
                &&& self.dist@[i] == self.dist@[j as int] + 1
                &&& self.root@[j as int] == self.root@[i]
            },
            None => self.dist@[i] == 0,
        }
    }

    spec fn prev_ok(self, i: int) -> bool {
        let n = self.nodes@[i].unwrap();
        match n.prev {
            Previous::PreviousNode(j) => {
                &&& j < N
                &&& self.nodes@[j as int] is Some
                &&& self.nodes@[j as int].unwrap().next == Some(i as usize)
                &&& self.pos@[i] == self.pos@[j as int] + 1
                &&& self.dist@[j as int] == self.dist@[i] + 1
                &&& self.root@[i] == self.root@[j as int]
            },
            _ => self.pos@[i] == 0 && self.root@[i] == i,
        }
    }

    ///The links of the nodes form chains without cycles: every link has a matching link back,
    ///positions grow along each chain from its root, and every chain ends.
    pub closed spec fn wf(self) -> bool {
        &&& self.nodes@.len() == N
        &&& self.root@.len() == N
        &&& self.pos@.len() == N
        &&& self.dist@.len() == N
        &&& forall|i: int| 0 <= i < N && self.nodes@[i] is Some ==> #[trigger] self.node_ok(i)
        &&& forall|i: int|
            0 <= i < N && self.nodes@[i] is Some ==> {
                let r = #[trigger] self.root@[i];
                &&& 0 <= r < N
                &&& self.nodes@[r] is Some
                &&& self.root@[r] == r
                &&& self.pos@[r] == 0
                &&& self.pos@[i] + self.dist@[i] == self.dist@[r]
            }
        &&& forall|i: int|
            0 <= i < N && #[trigger] self.nodes@[i] is None ==> self.root@[i] == i && self.pos@[i]
                == 0 && self.dist@[i] == 0
    }

    ///The identifier of the system, which the node IDs that it issues carry.
    pub closed spec fn id(self) -> u16 {
        self.system_id
    }

    ///The place `i` holds a node.
    pub closed spec fn is_node(self, i: int) -> bool {
        0 <= i < N && self.nodes@[i] is Some
    }

    ///A place that holds a node is one of the `N` places of the system.
    pub proof fn lemma_node_in_range(self, i: int)
        requires
            self.is_node(i),
        ensures
            0 <= i < N,
    {
    }

    ///`node_id` names a node of this system.
    pub open spec fn valid(self, node_id: NodeID) -> bool {
        node_id.system() == self.id() && self.is_node(node_id.index())
    }

    ///The state last set at place `i`.
    pub closed spec fn state_at(self, i: int) -> Option<S> {
        self.nodes@[i].unwrap().state_local
    }

    ///The root of the chain of the node at place `i`: the first node of the chain.
    pub closed spec fn root_of(self, i: int) -> int {
        self.root@[i]
    }

    ///The nodes at places `i` and `j` are connected: they are in one chain.
    pub open spec fn connected(self, i: int, j: int) -> bool {
        self.root_of(i) == self.root_of(j)
    }

    ///What comes before the node at place `i`.
    pub closed spec fn previous_at(self, i: int) -> Previous<C> {
        self.nodes@[i].unwrap().prev
    }

    ///What comes after the node at place `i`.
    pub closed spec fn next_at(self, i: int) -> Option<usize> {
        self.nodes@[i].unwrap().next
    }

    ///Constructor. `system_id` is carried by every node ID that the system issues and should
    ///differ from that of every other system in use.
    pub fn new(system_id: u16) -> (r: Self)
        ensures
            r.wf(),
            r.id() == system_id,
            forall|i: int| !r.is_node(i),
    {
        let mut nodes: Vec<Option<Node<S, C>>> = Vec::new();
        let mut i: usize = 0;
        while i < N
            invariant
                i <= N,
                nodes@.len() == i,
                forall|j: int| 0 <= j < i ==> nodes@[j] is None,
            decreases N - i,
        {
            nodes.push(None);
            i += 1;
        }
        System {
            system_id,
            nodes,
            root: Ghost(Seq::new(N as nat, |j: int| j)),
            pos: Ghost(Seq::new(N as nat, |j: int| 0nat)),
            dist: Ghost(Seq::new(N as nat, |j: int| 0nat)),
        }
    }

    ///Returns true only if this system issued the provided node.
    pub fn contains(&self, node_id: NodeID) -> (r: bool)
        ensures
            r == (node_id.system() == self.id()),
    {
        self.system_id == node_id.system
    }

    ///Returns true only if `node_id` names a node of this system: the system issued it and the
    ///node exists. The methods that read or write a node need this.
    pub fn has_node(&self, node_id: NodeID) -> (r: bool)
        requires
            self.wf(),
        ensures
            r == self.valid(node_id),
    {
        self.system_id == node_id.system && node_id.node < self.nodes.len()
            && self.nodes[node_id.node].is_some()
    }

    ///The last state that the node was directly set to with
    ///[`set_state_local`](Self::set_state_local). This does not account for connected nodes.
    pub fn get_state_local(&self, node_id: NodeID) -> (r: Option<S>)
        requires
            self.wf(),
            self.valid(node_id),
        ensures
            r == self.state_at(node_id.index()),
    {
        match &self.nodes[node_id.node] {
            Some(node) => node.state_local,
            None => None,
        }
    }

    ///Set the state of a node. The set value can be accessed by
    ///[`get_state_local`](Self::get_state_local); nothing else changes.
    pub fn set_state_local(&mut self, node_id: NodeID, state: Option<S>)
        requires
            old(self).wf(),
            old(self).valid(node_id),
        ensures
            final(self).wf(),
            final(self).id() == old(self).id(),
            final(self).state_at(node_id.index()) == state,
            forall|i: int| #[trigger] final(self).is_node(i) == old(self).is_node(i),
            forall|i: int|
                old(self).is_node(i) && i != node_id.index() ==> #[trigger] final(self).state_at(i)
                    == old(self).state_at(i),
            forall|i: int|
                old(self).is_node(i) ==> #[trigger] final(self).root_of(i) == old(self).root_of(i)
                    && final(self).previous_at(i) == old(self).previous_at(i)
                    && final(self).next_at(i) == old(self).next_at(i),
    {
        let i = node_id.node;
        if let Some(node) = self.nodes[i] {
            let updated = Node { prev: node.prev, next: node.next, state_local: state };
            self.nodes.set(i, Some(updated));
            assert forall|k: int| 0 <= k < N && self.nodes@[k] is Some implies #[trigger] self.node_ok(
                k,
            ) by {
                assert(old(self).node_ok(k));
            }
            assert forall|k: int| 0 <= k < N && #[trigger] self.nodes@[k] is None implies self.root@[k]
                == k && self.pos@[k] == 0 && self.dist@[k] == 0 by {
                assert(old(self).nodes@[k] is None);
            }
        }
    }

    ///Returns the ID of a new node, at the first free place, if the system has room for one. The
    ///new node is alone in its chain and has no state; nothing else changes.
    pub fn new_node(&mut self) -> (r: Option<NodeID>)
        requires
            old(self).wf(),
        ensures
            final(self).wf(),
            final(self).id() == old(self).id(),
            match r {
                Some(node_id) => {
                    let i = node_id.index();
                    &&& 0 <= i < N
                    &&& node_id.system() == old(self).id()
                    &&& !old(self).is_node(i)
                    &&& final(self).is_node(i)
                    &&& forall|j: int| 0 <= j < i ==> old(self).is_node(j)
                    &&& final(self).state_at(i) == None::<S>
                    &&& final(self).root_of(i) == i
                    &&& final(self).previous_at(i) == Previous::<C>::BeginningNoCommand
                    &&& final(self).next_at(i) == None::<usize>
                    &&& forall|j: int| j != i ==> #[trigger] final(self).is_node(j) == old(self).is_node(j)
                },
                None => forall|j: int| 0 <= j < N ==> #[trigger] old(self).is_node(j),
            },
            forall|j: int|
                old(self).is_node(j) ==> #[trigger] final(self).state_at(j) == old(self).state_at(j)
                    && final(self).root_of(j) == old(self).root_of(j) && final(self).previous_at(j)
                    == old(self).previous_at(j) && final(self).next_at(j) == old(self).next_at(j),
    {
        let mut i: usize = 0;
        while i < N
            invariant
                self == old(self),
                self.wf(),
                i <= N,
                forall|j: int| 0 <= j < i ==> #[trigger] self.is_node(j),
            decreases N - i,
        {
            if self.nodes[i].is_none() {
                let ghost before = *self;
                self.nodes.set(i, Some(Node::new()));
                assert forall|k: int| 0 <= k < N && self.nodes@[k] is Some implies #[trigger] self.node_ok(
                    k,
                ) by {
                    if k != i {
                        assert(before.node_ok(k));
                    }
                }
                assert forall|k: int|
                    0 <= k < N && self.nodes@[k] is Some implies {
                        let r = #[trigger] self.root@[k];
                        &&& 0 <= r < N
                        &&& self.nodes@[r] is Some
                        &&& self.root@[r] == r
                        &&& self.pos@[r] == 0
                        &&& self.pos@[k] + self.dist@[k] == self.dist@[r]
                    } by {
                    if k != i {
                        assert(before.nodes@[k] is Some);
                    }
                }
                return Some(NodeID::new(self.system_id, i));
            }
            i += 1;
        }
        None
    }

    ///Two nodes of one chain at the same position are the same node.
    proof fn lemma_unique_position(self, k1: int, k2: int)
        requires
            self.wf(),
            self.is_node(k1),
            self.is_node(k2),
            self.root@[k1] == self.root@[k2],
            self.pos@[k1] == self.pos@[k2],
        ensures
            k1 == k2,
        decreases self.pos@[k1],
    {
        assert(self.node_ok(k1));
        assert(self.node_ok(k2));
        if self.pos@[k1] > 0 {
            let q1 = self.nodes@[k1].unwrap().prev->PreviousNode_0 as int;
            let q2 = self.nodes@[k2].unwrap().prev->PreviousNode_0 as int;
            self.lemma_unique_position(q1, q2);
        }
    }

    ///The first node of the chain of the node at place `i`.
    fn beginning(&self, i: usize) -> (r: usize)
        requires
            self.wf(),
            self.is_node(i as int),
        ensures
            r == self.root_of(i as int),
            self.is_node(r as int),
    {
        let mut current = i;
        let mut done = false;
        while !done
            invariant
                self.wf(),
                self.is_node(current as int),
                self.root@[current as int] == self.root@[i as int],
                done ==> self.root@[current as int] == current,
            decreases (if done {
                0
            } else {
                self.pos@[current as int] + 1
            }),
        {
            assert(self.node_ok(current as int));
            match self.nodes[current] {
                Some(node) => match node.prev {
                    Previous::PreviousNode(p) => {
                        current = p;
                    },
                    _ => {
                        done = true;
                    },
                },
                None => {
                    done = true;
                },
            }
        }
        current
    }

    ///The last node of the chain of the node at place `i`.
    fn end(&self, i: usize) -> (r: usize)
        requires
            self.wf(),
            self.is_node(i as int),
        ensures
            self.is_node(r as int),
            self.root@[r as int] == self.root@[i as int],
            self.next_at(r as int) is None,
    {
        let mut current = i;
        let mut done = false;
        while !done
            invariant
                self.wf(),
                self.is_node(current as int),
                self.root@[current as int] == self.root@[i as int],
                done ==> self.next_at(current as int) is None,
            decreases (if done {
                0
            } else {
                self.dist@[current as int] + 1
            }),
        {
            assert(self.node_ok(current as int));
            match self.nodes[current] {
                Some(node) => match node.next {
                    Some(n) => {
                        current = n;
                    },
                    None => {
                        done = true;
                    },
                },
                None => {
                    done = true;
                },
            }
        }
        current
    }

    ///Connects two nodes: the chain of `node_b_id` is appended to the chain of `node_a_id`.
    ///Connections between nodes are transitive (if A is connected to B and B is connected to C
    ///then A is connected to C) and bidirectional. The first node of the chain of A stays first,
    ///so a command that it carries is kept. Connecting nodes that are already connected changes
    ///nothing.
    pub fn connect(&mut self, node_a_id: NodeID, node_b_id: NodeID)
        requires
            old(self).wf(),
            old(self).valid(node_a_id),
            old(self).valid(node_b_id),
        ensures
            final(self).wf(),
            final(self).id() == old(self).id(),
            forall|i: int| #[trigger] final(self).is_node(i) == old(self).is_node(i),
            forall|i: int|
                old(self).is_node(i) ==> #[trigger] final(self).state_at(i) == old(self).state_at(i),
            forall|k: int, l: int|
                old(self).is_node(k) && old(self).is_node(l) ==> (#[trigger] final(self).connected(
                    k,
                    l,
                ) <==> (old(self).connected(k, l) || (old(self).connected(k, node_a_id.index())
                    && old(self).connected(l, node_b_id.index())) || (old(self).connected(
                    k,
                    node_b_id.index(),
                ) && old(self).connected(l, node_a_id.index())))),
            final(self).root_of(node_b_id.index()) == old(self).root_of(node_a_id.index()),
            final(self).previous_at(old(self).root_of(node_a_id.index())) == old(self).previous_at(
                old(self).root_of(node_a_id.index()),
            ),
    {
        let ia = node_a_id.node;
        let ib = node_b_id.node;
        let a_begin = self.beginning(ia);
        let b_begin = self.beginning(ib);
        if a_begin == b_begin {
            return;
        }
        let a_end = self.end(ia);
        let ghost before = *self;
        let ghost ra = before.root@[ia as int];
        let ghost rb = before.root@[ib as int];
        let ghost shift_pos: nat = before.pos@[a_end as int] + 1;
        let ghost shift_dist: nat = before.dist@[b_begin as int] + 1;
        let end_node = match self.nodes[a_end] {
            Some(node) => node,
            None => return,
        };
        let begin_node = match self.nodes[b_begin] {
            Some(node) => node,
            None => return,
        };
        self.nodes.set(
            a_end,
            Some(Node { prev: end_node.prev, next: Some(b_begin), state_local: end_node.state_local }),
        );
        self.nodes.set(
            b_begin,
            Some(
                Node {
                    prev: Previous::PreviousNode(a_end),
                    next: begin_node.next,
                    state_local: begin_node.state_local,
                },
            ),
        );
        self.root = Ghost(
            Seq::new(
                N as nat,
                |k: int|
                    if before.nodes@[k] is Some && before.root@[k] == rb {
                        ra
                    } else {
                        before.root@[k]
                    },
            ),
        );
        self.pos = Ghost(
            Seq::new(
                N as nat,
                |k: int|
                    if before.nodes@[k] is Some && before.root@[k] == rb {
                        before.pos@[k] + shift_pos
                    } else {
                        before.pos@[k]
                    },
            ),
        );
        self.dist = Ghost(
            Seq::new(
                N as nat,
                |k: int|
                    if before.nodes@[k] is Some && before.root@[k] == ra {
                        before.dist@[k] + shift_dist
                    } else {
                        before.dist@[k]
                    },
            ),
        );
        proof {
            assert(before.node_ok(a_end as int));
            assert(before.node_ok(b_begin as int));
            assert forall|k: int| 0 <= k < N && self.nodes@[k] is Some implies #[trigger] self.node_ok(
                k,
            ) by {
                assert(before.node_ok(k));
                let n = before.nodes@[k].unwrap();
                if let Some(j) = n.next {
                    assert(before.node_ok(j as int));
                }
                if let Previous::PreviousNode(j) = n.prev {
                    assert(before.node_ok(j as int));
                }
                if k == a_end as int {
                    assert(self.next_ok(k));
                    assert(self.prev_ok(k));
                } else if k == b_begin as int {
                    assert(self.next_ok(k));
                    assert(self.prev_ok(k));
                } else {
                    if n.next is None && before.root@[k] == ra {
                        before.lemma_unique_position(k, a_end as int);
                    }
                    if !(n.prev is PreviousNode) && before.root@[k] == rb {
                        before.lemma_unique_position(k, b_begin as int);
                    }
                    assert(self.next_ok(k));
                    assert(self.prev_ok(k));
                }
            }
            assert forall|k: int|
                0 <= k < N && self.nodes@[k] is Some implies {
                    let r = #[trigger] self.root@[k];
                    &&& 0 <= r < N
                    &&& self.nodes@[r] is Some
                    &&& self.root@[r] == r
                    &&& self.pos@[r] == 0
                    &&& self.pos@[k] + self.dist@[k] == self.dist@[r]
                } by {
                assert(before.nodes@[before.root@[k]] is Some);
            }
            assert forall|k: int| 0 <= k < N && #[trigger] self.nodes@[k] is None implies self.root@[k]
                == k && self.pos@[k] == 0 && self.dist@[k] == 0 by {
                assert(before.nodes@[k] is None);
            }
        }
    }

    ///Disconnects a node from all other nodes connected to it. The nodes connected to it stay
    ///connected to each other (if A is connected to B and B is connected to C, A stays connected
    ///to C when B is disconnected). If the node was the first of its chain and is followed by
    ///another, the one after it becomes first and takes what came before it, such as a command.
    #[verifier::rlimit(60)]
    pub fn disconnect(&mut self, node_id: NodeID)
        requires
            old(self).wf(),
            old(self).valid(node_id),
        ensures
            final(self).wf(),
            final(self).id() == old(self).id(),
            forall|k: int| #[trigger] final(self).is_node(k) == old(self).is_node(k),
            forall|k: int|
                old(self).is_node(k) ==> #[trigger] final(self).state_at(k) == old(self).state_at(k),
            final(self).root_of(node_id.index()) == node_id.index(),
            final(self).next_at(node_id.index()) is None,
            !(final(self).previous_at(node_id.index()) is PreviousNode),
            forall|k: int, l: int|
                old(self).is_node(k) && old(self).is_node(l) && k != node_id.index() && l
                    != node_id.index() ==> (#[trigger] final(self).connected(k, l)
                    <==> old(self).connected(k, l)),
            forall|k: int|
                old(self).is_node(k) && k != node_id.index() ==> !#[trigger] final(self).connected(
                    k,
                    node_id.index(),
                ),
            !(old(self).previous_at(node_id.index()) is PreviousNode) ==> (old(self).next_at(
                node_id.index(),
            ) matches Some(x) ==> final(self).previous_at(x as int) == old(self).previous_at(
                node_id.index(),
            )),
            old(self).next_at(node_id.index()) is None && !(old(self).previous_at(
                node_id.index(),
            ) is PreviousNode) ==> final(self).previous_at(node_id.index()) == old(
                self,
            ).previous_at(node_id.index()),
    {
        let i = node_id.node;
        let node = match self.nodes[i] {
            Some(node) => node,
            None => return,
        };
        let ghost before = *self;
        proof {
            assert(before.node_ok(i as int));
        }
        let previous = node.prev;
        let maybe_next = node.next;
        if let Previous::PreviousNode(p) = previous {
            let prev_node = match self.nodes[p] {
                Some(n) => n,
                None => return,
            };
            self.nodes.set(
                p,
                Some(Node { prev: prev_node.prev, next: maybe_next, state_local: prev_node.state_local }),
            );
        }
        if let Some(x) = maybe_next {
            let next_node = match self.nodes[x] {
                Some(n) => n,
                None => return,
            };
            self.nodes.set(
                x,
                Some(Node { prev: previous, next: next_node.next, state_local: next_node.state_local }),
            );
        }
        let own_prev = match previous {
            Previous::PreviousNode(_) => Previous::BeginningNoCommand,
            other => if maybe_next.is_some() {
                Previous::BeginningNoCommand
            } else {
                other
            },
        };
        self.nodes.set(i, Some(Node { prev: own_prev, next: None, state_local: node.state_local }));
        let ghost r = before.root@[i as int];
        let ghost pi = before.pos@[i as int];
        let ghost was_root = !(previous is PreviousNode);
        let ghost new_first: int = match maybe_next {
            Some(x) => x as int,
            None => i as int,
        };
        self.root = Ghost(
            Seq::new(
                N as nat,
                |k: int|
                    if k == i {
                        i as int
                    } else if before.nodes@[k] is Some && before.root@[k] == r && was_root {
                        new_first
                    } else {
                        before.root@[k]
                    },
            ),
        );
        self.pos = Ghost(
            Seq::new(
                N as nat,
                |k: int|
                    if k == i {
                        0
                    } else if before.nodes@[k] is Some && before.root@[k] == r && before.pos@[k] > pi {
                        (before.pos@[k] - 1) as nat
                    } else {
                        before.pos@[k]
                    },
            ),
        );
        self.dist = Ghost(
            Seq::new(
                N as nat,
                |k: int|
                    if k == i {
                        0
                    } else if before.nodes@[k] is Some && before.root@[k] == r && before.pos@[k] < pi {
                        (before.dist@[k] - 1) as nat
                    } else {
                        before.dist@[k]
                    },
            ),
        );
        proof {
            assert forall|k: int| 0 <= k < N && self.nodes@[k] is Some implies #[trigger] self.node_ok(
                k,
            ) by {
                assert(before.node_ok(k));
                let n = before.nodes@[k].unwrap();
                if let Some(j) = n.next {
                    assert(before.node_ok(j as int));
                    if before.root@[k] == r && j != i {
                        if before.pos@[j as int] == pi {
                            before.lemma_unique_position(j as int, i as int);
                        }
                    }
                }
                if let Previous::PreviousNode(j) = n.prev {
                    assert(before.node_ok(j as int));
                    if before.root@[k] == r && j != i {
                        if before.pos@[j as int] == pi {
                            before.lemma_unique_position(j as int, i as int);
                        }
                    }
                }
                if k != i && before.root@[k] == r && before.pos@[k] == pi {
                    before.lemma_unique_position(k, i as int);
                }
                let rr = before.root@[k];
                assert(before.pos@[k] + before.dist@[k] == before.dist@[rr]);
                let ri = before.root@[i as int];
                assert(before.pos@[i as int] + before.dist@[i as int] == before.dist@[ri]);
                assert(self.next_ok(k));
                assert(self.prev_ok(k));
            }
            assert forall|k: int|
                0 <= k < N && self.nodes@[k] is Some implies {
                    let rk = #[trigger] self.root@[k];
                    &&& 0 <= rk < N
                    &&& self.nodes@[rk] is Some
                    &&& self.root@[rk] == rk
                    &&& self.pos@[rk] == 0
                    &&& self.pos@[k] + self.dist@[k] == self.dist@[rk]
                } by {
                assert(before.nodes@[before.root@[k]] is Some);
                if k != i && before.root@[k] == r && before.pos@[k] == pi {
                    before.lemma_unique_position(k, i as int);
                }
                let rr = before.root@[k];
                assert(before.pos@[k] + before.dist@[k] == before.dist@[rr]);
                let ri = before.root@[i as int];
                assert(before.pos@[i as int] + before.dist@[i as int] == before.dist@[ri]);
                if let Some(x) = maybe_next {
                    assert(before.node_ok(x as int));
                }
                if let Previous::PreviousNode(p) = previous {
                    assert(before.node_ok(p as int));
                }
            }
            assert forall|k: int| 0 <= k < N && #[trigger] self.nodes@[k] is None implies self.root@[k]
                == k && self.pos@[k] == 0 && self.dist@[k] == 0 by {
                assert(before.nodes@[k] is None);
            }
            assert forall|k: int| before.is_node(k) && k != i implies self.root@[k] != i by {
                let rr = before.root@[k];
                assert(before.nodes@[rr] is Some);
                if before.root@[k] == r && before.pos@[k] == pi {
                    before.lemma_unique_position(k, i as int);
                }
                assert(before.pos@[k] + before.dist@[k] == before.dist@[rr]);
                let ri = before.root@[i as int];
                assert(before.pos@[i as int] + before.dist@[i as int] == before.dist@[ri]);
            }
        }
    }

    ///The number of nodes before the node at place `i` in its chain.
    pub closed spec fn position(self, i: int) -> int {
        self.pos@[i] as int
    }

    ///The number of nodes after the node at place `i` in its chain.
    pub closed spec fn remaining(self, i: int) -> int {
        self.dist@[i] as int
    }

    ///Every node of a chain is at a position from zero to the length of the chain less one,
    ///and no two nodes of a chain are at the same position.
    pub proof fn lemma_positions(self, i: int, k: int)
        requires
            self.wf(),
            self.is_node(i),
            self.is_node(k),
            self.connected(i, k),
        ensures
            0 <= self.position(k) <= self.position(i) + self.remaining(i),
            self.position(k) == self.position(i) ==> k == i,
    {
        let r = self.root@[i];
        assert(self.pos@[i] + self.dist@[i] == self.dist@[r]);
        let rk = self.root@[k];
        assert(self.pos@[k] + self.dist@[k] == self.dist@[rk]);
        if self.pos@[k] == self.pos@[i] {
            self.lemma_unique_position(k, i);
        }
    }

    ///The nodes connected to a node, excluding the node itself: first those after it in its chain,
    ///nearest first, then those before it, nearest first.
    pub fn connected_nodes(&self, node_id: NodeID) -> (r: Vec<NodeID>)
        requires
            self.wf(),
            self.valid(node_id),
        ensures
            r.len() == self.position(node_id.index()) + self.remaining(node_id.index()),
            forall|t: int|
                0 <= t < r.len() ==> {
                    let k = (#[trigger] r@[t]).index();
                    &&& r@[t].system() == self.id()
                    &&& self.is_node(k)
                    &&& self.connected(k, node_id.index())
                    &&& self.position(k) == if t < self.remaining(node_id.index()) {
                        self.position(node_id.index()) + 1 + t
                    } else {
                        self.position(node_id.index()) - 1 - (t - self.remaining(node_id.index()))
                    }
                },
            forall|k: int|
                #![trigger self.connected(k, node_id.index())]
                self.is_node(k) && self.connected(k, node_id.index()) && k != node_id.index()
                    ==> exists|t: int| 0 <= t < r.len() && (#[trigger] r@[t]).index() == k,
    {
        let i = node_id.node;
        let ghost pi = self.pos@[i as int] as int;
        let ghost di = self.dist@[i as int] as int;
        let mut result: Vec<NodeID> = Vec::new();
        let mut current = i;
        let mut done = false;
        while !done
            invariant
                self.wf(),
                self.valid(node_id),
                i == node_id.index(),
                pi == self.pos@[i as int],
                di == self.dist@[i as int],
                self.is_node(current as int),
                self.root@[current as int] == self.root@[i as int],
                result.len() == self.pos@[current as int] - pi,
                done ==> self.dist@[current as int] == 0,
                forall|t: int|
                    0 <= t < result.len() ==> {
                        let k = (#[trigger] result@[t]).index();
                        &&& result@[t].system() == self.id()
                        &&& self.is_node(k)
                        &&& self.root@[k] == self.root@[i as int]
                        &&& self.pos@[k] == pi + 1 + t
                    },
            decreases (if done {
                0
            } else {
                self.dist@[current as int] + 1
            }),
        {
            assert(self.node_ok(current as int));
            match self.nodes[current] {
                Some(node) => match node.next {
                    Some(n) => {
                        result.push(NodeID::new(self.system_id, n));
                        current = n;
                    },
                    None => {
                        done = true;
                    },
                },
                None => {
                    done = true;
                },
            }
        }
        proof {
            let r = self.root@[i as int];
            assert(self.pos@[i as int] + self.dist@[i as int] == self.dist@[r]);
            let rc = self.root@[current as int];
            assert(self.pos@[current as int] + self.dist@[current as int] == self.dist@[rc]);
        }
        current = i;
        done = false;
        while !done
            invariant
                self.wf(),
                self.valid(node_id),
                i == node_id.index(),
                pi == self.pos@[i as int],
                di == self.dist@[i as int],
                self.is_node(current as int),
                self.root@[current as int] == self.root@[i as int],
                result.len() == di + (pi - self.pos@[current as int]),
                self.pos@[current as int] <= pi,
                done ==> self.pos@[current as int] == 0,
                forall|t: int|
                    0 <= t < result.len() ==> {
                        let k = (#[trigger] result@[t]).index();
                        &&& result@[t].system() == self.id()
                        &&& self.is_node(k)
                        &&& self.root@[k] == self.root@[i as int]
                        &&& self.pos@[k] == if t < di {
                            pi + 1 + t
                        } else {
                            pi - 1 - (t - di)
                        }
                    },
            decreases (if done {
                0
            } else {
                self.pos@[current as int] + 1
            }),
        {
            assert(self.node_ok(current as int));
            match self.nodes[current] {
                Some(node) => match node.prev {
                    Previous::PreviousNode(p) => {
                        result.push(NodeID::new(self.system_id, p));
                        current = p;
                    },
                    _ => {
                        done = true;
                    },
                },
                None => {
                    done = true;
                },
            }
        }
        proof {
            assert forall|k: int|
                #![trigger self.connected(k, node_id.index())]
                self.is_node(k) && self.connected(k, node_id.index()) && k != node_id.index()
                    implies exists|t: int| 0 <= t < result.len() && (#[trigger] result@[t]).index()
                    == k by {
                self.lemma_positions(i as int, k);
                let t: int = if self.pos@[k] > pi {
                    self.pos@[k] - pi - 1
                } else {
                    di + (pi - 1 - self.pos@[k])
                };
                let kt = result@[t].index();
                self.lemma_unique_position(kt, k);
            }
        }
        result
    }
}

///Very similar to the [`Updatable`](crate::Updatable) trait except that it requires a mutable
///reference to the system controlling the device's nodes.
pub trait DeviceUpdatable<E, S: Copy, C: Copy>: Sized {
    ///The nodes whose states the device reads and writes.
    open spec fn device_nodes(&self) -> Set<NodeID> {
        Set::empty()
    }

    ///What an update of the device needs besides its nodes belonging to the system.
    open spec fn device_update_req(&self) -> bool {
        true
    }

    ///Update the states of the device's terminals based on the device's mechanical constraints.
    fn device_update<const N: usize>(&mut self, system: &mut System<N, S, C>) -> (r:
        NothingOrError<E>)
        requires
            old(system).wf(),
            old(self).device_update_req(),
            forall|n: NodeID| old(self).device_nodes().contains(n) ==> old(system).valid(n),
        ensures
            final(system).wf(),
            final(system).id() == old(system).id(),
    ;
}

} // verus!
