//! The interaction layer: where the mouse is on the grid, which direction and
//! placement action are selected, and what a click asks the world to build.
use vstd::prelude::*;
use crate::direction::IsoDirection;

verus! {

/// How far a claw reaches, in grid cells.
pub const CLAW_REACH: u32 = 3;

/// A stable handle to an entity of the world: its slot and the generation of
/// that slot, so that a handle to a removed entity is never mistaken for a new one.
#[derive(Clone, Copy, Debug, PartialEq, Eq, Structural)]
pub struct EntityId {
    pub index: u32,
    pub generation: u32,
}

/// A cell of the placement grid, addressed by two integer coordinates.
#[derive(Clone, Copy, Debug, PartialEq, Eq, Structural)]
pub struct IsoPos {
    pub x: i32,
    pub y: i32,
}

impl IsoPos {
    /// The cell at the origin of the grid.
    pub fn origin() -> (r: IsoPos)
        ensures
            r == (IsoPos { x: 0, y: 0 }),
    {
        IsoPos { x: 0, y: 0 }
    }
}

/// What a click of the primary button does.
#[derive(Clone, Copy, Debug, PartialEq, Eq, Structural)]
pub enum MouseAction {
    /// Place a conveyor on the cell under the mouse.
    PlaceConveyor,
    /// Pick the container a new claw starts from.
    PlaceClaw,
    /// Pick the container that the claw started at `start_pos` ends at.
    PlaceClawEnd { start_pos: EntityId },
    /// Place a furnace on the cell under the mouse.
    PlaceFurnace,
}

impl MouseAction {
    /// Whether the direction marker is drawn a quarter turn from the selected
    /// direction: a conveyor runs across the arrow's cell, not along it.
    pub fn use_perpendicular_arrow(&self) -> (r: bool)
        ensures
            r == (*self is PlaceConveyor),
    {
        match self {
            MouseAction::PlaceConveyor => true,
            _ => false,
        }
    }
}

/// A request to build something in the world, carried out by whoever owns the world.
#[derive(Clone, Copy, Debug, PartialEq, Eq, Structural)]
pub enum SpawnRequest {
    Conveyor { pos: IsoPos, direction: IsoDirection, mirrored: bool },
    Claw { start: EntityId, end: EntityId, reach: u32 },
    Furnace { pos: IsoPos, direction: IsoDirection },
}

/// The keys and button pressed in one frame.
#[derive(Clone, Copy, Debug, PartialEq, Eq, Structural)]
pub struct FrameInput {
    pub rotate_clockwise: bool,
    pub rotate_counter_clockwise: bool,
    pub select_conveyor: bool,
    pub select_claw: bool,
    pub select_furnace: bool,
    pub click: bool,
}

/// The first container in `containers` that stands on `pos`.
pub open spec fn first_container_at(containers: Seq<(EntityId, IsoPos)>, pos: IsoPos) -> Option<
    EntityId,
>
    decreases containers.len(),
{
    if containers.len() == 0 {
        None
    } else if containers[0].1 == pos {
        Some(containers[0].0)
    } else {
        first_container_at(containers.drop_first(), pos)
    }
}

/// Finds the container on the cell `pos`: the first one in the list that
/// stands there, or `None` when no container does.
pub fn find_container(containers: &Vec<(EntityId, IsoPos)>, pos: IsoPos) -> (r: Option<EntityId>)
    ensures
        r == first_container_at(containers@, pos),
{
    let mut i: usize = 0;
    assert(containers@.subrange(0, containers@.len() as int) =~= containers@);
    while i < containers.len()
        invariant
            i <= containers@.len(),
            first_container_at(containers@, pos) == first_container_at(
                containers@.subrange(i as int, containers@.len() as int),
                pos,
            ),
        decreases containers@.len() - i,
    {
        let (container, container_pos) = containers[i];
        proof {
            let rest = containers@.subrange(i as int, containers@.len() as int);
            assert(rest.drop_first() =~= containers@.subrange(i + 1, containers@.len() as int));
        }
        if container_pos == pos {
            return Some(container);
        }
        i = i + 1;
    }
    assert(containers@.subrange(i as int, containers@.len() as int).len() == 0);
    None
}

/// What the interaction layer remembers from frame to frame.
#[derive(Clone, Copy, Debug, PartialEq, Eq, Structural)]
pub struct GuiState {
    /// The grid cell under the mouse.
    pub mouse_pos_in_world: IsoPos,
    /// The camera whose projection maps the screen onto the world.
    pub primary_camera: EntityId,
    /// The marker drawn on the cell under the mouse.
    pub world_cursor: EntityId,
    /// The marker that shows the selected direction.
    pub arrow: EntityId,
    pub direction: IsoDirection,
    pub action: MouseAction,
}

impl GuiState {
    /// The state after the keys of `input`: each rotation key turns the
    /// direction by a sixth of a turn, and each selection key (in the order
    /// conveyor, claw, furnace) replaces the action, forgetting a claw start.
    pub open spec fn with_keys(self, input: FrameInput) -> GuiState {
        let d1 = if input.rotate_clockwise {
            self.direction.turned(1)
        } else {
            self.direction
        };
        let d2 = if input.rotate_counter_clockwise {
            d1.turned(-1)
        } else {
            d1
        };
        let a1 = if input.select_conveyor {
            MouseAction::PlaceConveyor
        } else {
            self.action
        };
        let a2 = if input.select_claw {
            MouseAction::PlaceClaw
        } else {
            a1
        };
        let a3 = if input.select_furnace {
            MouseAction::PlaceFurnace
        } else {
            a2
        };
        GuiState { direction: d2, action: a3, ..self }
    }

    /// The state after a click, and what it asks to build, given the container
    /// found under the mouse (if any).
    pub open spec fn clicked(self, found: Option<EntityId>) -> (GuiState, Option<SpawnRequest>) {
        match self.action {
            MouseAction::PlaceConveyor => (
                self,
                Some(
                    SpawnRequest::Conveyor {
                        pos: self.mouse_pos_in_world,
                        direction: self.direction,
                        mirrored: false,
                    },
                ),
            ),
            MouseAction::PlaceClaw => match found {
                Some(c) => (GuiState { action: MouseAction::PlaceClawEnd { start_pos: c }, ..self }, None),
                None => (self, None),
            },
            MouseAction::PlaceClawEnd { start_pos } => match found {
                Some(c) => (
                    GuiState { action: MouseAction::PlaceClaw, ..self },
                    Some(SpawnRequest::Claw { start: start_pos, end: c, reach: CLAW_REACH }),
                ),
                None => (self, None),
            },
            MouseAction::PlaceFurnace => (
                self,
                Some(
                    SpawnRequest::Furnace {
                        pos: self.mouse_pos_in_world,
                        direction: self.direction,
                    },
                ),
            ),
        }
    }

    /// One frame of input: the keys first, then the click (if any) on the
    /// first container under the mouse.
    pub open spec fn frame(self, input: FrameInput, containers: Seq<(EntityId, IsoPos)>) -> (
        GuiState,
        Option<SpawnRequest>,
    ) {
        let s = self.with_keys(input);
        if input.click {
            s.clicked(first_container_at(containers, s.mouse_pos_in_world))
        } else {
            (s, None)
        }
    }

    /// The state at startup, given the camera and the two markers: the mouse
    /// on the origin cell, the first direction, and conveyor placement.
    pub fn new(primary_camera: EntityId, world_cursor: EntityId, arrow: EntityId) -> (r: GuiState)
        ensures
            r == (GuiState {
                mouse_pos_in_world: IsoPos { x: 0, y: 0 },
                primary_camera,
                world_cursor,
                arrow,
                direction: IsoDirection::PosA,
                action: MouseAction::PlaceConveyor,
            }),
    {
        GuiState {
            mouse_pos_in_world: IsoPos::origin(),
            primary_camera,
            world_cursor,
            arrow,
            direction: IsoDirection::default(),
            action: MouseAction::PlaceConveyor,
        }
    }

    /// Follows the mouse through the cells of this frame's cursor moves, in
    /// order: the cell of the last move is the one under the mouse.
    pub fn track_mouse(&mut self, cells: &Vec<IsoPos>)
        ensures
            cells@.len() == 0 ==> *final(self) == *old(self),
            cells@.len() > 0 ==> *final(self) == (GuiState {
                mouse_pos_in_world: cells@.last(),
                ..*old(self)
            }),
    {
        let mut i: usize = 0;
        while i < cells.len()
            invariant
                i <= cells@.len(),
                i == 0 ==> *self == *old(self),
                i > 0 ==> *self == (GuiState { mouse_pos_in_world: cells@[i - 1], ..*old(self) }),
            decreases cells@.len() - i,
        {
            self.mouse_pos_in_world = cells[i];
            i = i + 1;
        }
    }

    /// Applies the rotation and selection keys of one frame.
    pub fn apply_keys(&mut self, input: &FrameInput)
        ensures
            *final(self) == old(self).with_keys(*input),
    {
        if input.rotate_clockwise {
            self.direction = self.direction.clockwise();
        }
        if input.rotate_counter_clockwise {
            self.direction = self.direction.counter_clockwise();
        }
        if input.select_conveyor {
            self.action = MouseAction::PlaceConveyor;
        }
        if input.select_claw {
            self.action = MouseAction::PlaceClaw;
        }
        if input.select_furnace {
            self.action = MouseAction::PlaceFurnace;
        }
    }

    /// Handles a click of the primary button, given the container found under
    /// the mouse: updates the action and returns what is to be built.
    pub fn click(&mut self, found: Option<EntityId>) -> (r: Option<SpawnRequest>)
        ensures
            (*final(self), r) == old(self).clicked(found),
    {
        match self.action {
            MouseAction::PlaceConveyor => Some(
                SpawnRequest::Conveyor {
                    pos: self.mouse_pos_in_world,
                    direction: self.direction,
                    mirrored: false,
                },
            ),
            MouseAction::PlaceClaw => {
                if let Some(c) = found {
                    self.action = MouseAction::PlaceClawEnd { start_pos: c };
                }
                None
            },
            MouseAction::PlaceClawEnd { start_pos } => {
                match found {
                    Some(c) => {
                        self.action = MouseAction::PlaceClaw;
                        Some(SpawnRequest::Claw { start: start_pos, end: c, reach: CLAW_REACH })
                    },
                    None => None,
                }
            },
            MouseAction::PlaceFurnace => Some(
                SpawnRequest::Furnace { pos: self.mouse_pos_in_world, direction: self.direction },
            ),
        }
    }

    /// Handles one frame of keyboard and mouse input, given the containers of
    /// the world with their cells; returns what the click asks to build.
    pub fn handle_input(&mut self, input: &FrameInput, containers: &Vec<(EntityId, IsoPos)>) -> (r:
        Option<SpawnRequest>)
        ensures
            (*final(self), r) == old(self).frame(*input, containers@),
    {
        self.apply_keys(input);
        if input.click {
            let found = find_container(containers, self.mouse_pos_in_world);
            self.click(found)
        } else {
            None
        }
    }
}

/// No container of the list stands on `pos` exactly when the lookup finds none.
pub proof fn lemma_no_container_at(containers: Seq<(EntityId, IsoPos)>, pos: IsoPos)
    ensures
        (forall|i: int| 0 <= i < containers.len() ==> (#[trigger] containers[i]).1 != pos)
            <==> first_container_at(containers, pos) is None,
    decreases containers.len(),
{
    if containers.len() > 0 {
        let rest = containers.drop_first();
        lemma_no_container_at(rest, pos);
        if forall|i: int| 0 <= i < containers.len() ==> (#[trigger] containers[i]).1 != pos {
            assert forall|i: int| 0 <= i < rest.len() implies (#[trigger] rest[i]).1 != pos by {
                assert(rest[i] == containers[i + 1]);
            }
        }
        if first_container_at(containers, pos) is None {
            assert forall|i: int| 0 <= i < containers.len() implies (
            #[trigger] containers[i]).1 != pos by {
                if i > 0 {
                    assert(containers[i] == rest[i - 1]);
                }
            }
        }
    }
}

/// Placing a claw takes two clicks on containers. From claw placement, the
/// first click remembers its container as the start and asks for nothing; the
/// second asks for exactly one claw, from that start to its own container, and
/// goes back to waiting for a start. Nothing else in the state changes.
pub proof fn lemma_claw_two_clicks(s: GuiState, first: EntityId, second: EntityId)
    requires
        s.action == MouseAction::PlaceClaw,
    ensures
        s.clicked(Some(first)) == (
            GuiState { action: MouseAction::PlaceClawEnd { start_pos: first }, ..s },
            None::<SpawnRequest>,
        ),
        s.clicked(Some(first)).0.clicked(Some(second)) == (
            s,
            Some(SpawnRequest::Claw { start: first, end: second, reach: CLAW_REACH }),
        ),
{
}

/// While a claw is being placed, a click on a cell that holds no container
/// changes nothing and asks for nothing.
pub proof fn lemma_empty_click_ignored_while_placing_claw(
    s: GuiState,
    containers: Seq<(EntityId, IsoPos)>,
)
    requires
        s.action is PlaceClaw || s.action is PlaceClawEnd,
        forall|i: int|
            0 <= i < containers.len() ==> (#[trigger] containers[i]).1 != s.mouse_pos_in_world,
    ensures
        s.clicked(None) == (s, None::<SpawnRequest>),
        s.frame(
            FrameInput {
                rotate_clockwise: false,
                rotate_counter_clockwise: false,
                select_conveyor: false,
                select_claw: false,
                select_furnace: false,
                click: true,
            },
            containers,
        ) == (s, None::<SpawnRequest>),
{
    lemma_no_container_at(containers, s.mouse_pos_in_world);
    let click_only = FrameInput {
        rotate_clockwise: false,
        rotate_counter_clockwise: false,
        select_conveyor: false,
        select_claw: false,
        select_furnace: false,
        click: true,
    };
    assert(s.with_keys(click_only) == s);
}

/// A selection key pressed while a claw's end is awaited forgets the claw's
/// start. When the key selects claw placement again, the next two clicks on
/// containers ask for a claw between those two containers, never from the
/// forgotten start.
pub proof fn lemma_selection_forgets_claw_start(
    s: GuiState,
    input: FrameInput,
    first: EntityId,
    second: EntityId,
)
    requires
        s.action is PlaceClawEnd,
        input.select_conveyor || input.select_claw || input.select_furnace,
    ensures
        !(s.with_keys(input).action is PlaceClawEnd),
        input.select_claw && !input.select_furnace ==> {
            let t = s.with_keys(input);
            &&& t.action == MouseAction::PlaceClaw
            &&& t.clicked(Some(first)).1 is None
            &&& t.clicked(Some(first)).0.clicked(Some(second)).1 == Some(
                SpawnRequest::Claw { start: first, end: second, reach: CLAW_REACH },
            )
        },
{
}

} // verus!
