use vstd::prelude::*;

verus! {

/// One drawing command of a `Path`, with the points it names.
#[derive(Debug, Clone, Copy, PartialEq)]
pub enum Command<T, S> {
    MoveTo { to: T },
    LineTo { to: T },
    CubicBezier { cp1: T, cp2: T, to: T },
    SquareBezier { cp: T, to: T },
    Arc { radius: T, axis_rotation: S, large_arc_flag: bool, sweep_flag: bool, to: T },
    ClosePath,
}

/// A drawn piece of a path, with the point it starts from.
#[derive(Debug, Clone, Copy, PartialEq)]
pub enum Segment<T, S> {
    Line { from: T, to: T },
    CubicBezier { from: T, cp1: T, cp2: T, to: T },
    SquareBezier { from: T, cp: T, to: T },
    Arc { from: T, radius: T, axis_rotation: S, large_arc_flag: bool, sweep_flag: bool, to: T },
}

/// A path: a starting point and the commands drawn from it, in order.
#[derive(Debug, Clone, PartialEq)]
pub struct Path<T, S> {
    commands: Vec<Command<T, S>>,
    init_pos: T,
}

/// The segments that `cmds` draw, given the start of the current subpath and
/// the current point. A move draws nothing and starts a new subpath; closing
/// draws a line back to the start of the subpath.
pub open spec fn scan<T, S>(start: T, cur: T, cmds: Seq<Command<T, S>>) -> Seq<Segment<T, S>>
    decreases cmds.len(),
{
    if cmds.len() == 0 {
        Seq::empty()
    } else {
        let rest = cmds.drop_first();
        match cmds[0] {
            Command::MoveTo { to } => scan(to, to, rest),
            Command::LineTo { to } => seq![Segment::Line { from: cur, to }] + scan(start, to, rest),
            Command::CubicBezier { cp1, cp2, to } => seq![
                Segment::CubicBezier { from: cur, cp1, cp2, to },
            ] + scan(start, to, rest),
            Command::SquareBezier { cp, to } => seq![Segment::SquareBezier { from: cur, cp, to }]
                + scan(start, to, rest),
            Command::Arc { radius, axis_rotation, large_arc_flag, sweep_flag, to } => seq![
                Segment::Arc { from: cur, radius, axis_rotation, large_arc_flag, sweep_flag, to },
            ] + scan(start, to, rest),
            Command::ClosePath => seq![Segment::Line { from: cur, to: start }] + scan(
                start,
                start,
                rest,
            ),
        }
    }
}

impl<T, S> Path<T, S> {
    /// The commands, in the order they were added.
    pub closed spec fn commands_view(&self) -> Seq<Command<T, S>> {
        self.commands@
    }

    /// The point the path starts from.
    pub closed spec fn init_view(&self) -> T {
        self.init_pos
    }

    /// The segments the path draws, in order.
    pub open spec fn segments_spec(&self) -> Seq<Segment<T, S>> {
        scan(self.init_view(), self.init_view(), self.commands_view())
    }

    /// Starts a new subpath at `to`. Before any other command this sets the
    /// path's starting point instead of recording a move.
    pub fn move_to(&mut self, to: T) -> (r: &mut Self)
        ensures
            old(self).commands_view().len() == 0 ==> r.commands_view() == old(
                self,
            ).commands_view() && r.init_view() == to,
            old(self).commands_view().len() > 0 ==> r.commands_view() == old(
                self,
            ).commands_view().push(Command::MoveTo { to }) && r.init_view() == old(self).init_view(),
            *final(self) == *final(r),
    {
        if self.commands.len() == 0 {
            self.init_pos = to;
        } else {
            self.commands.push(Command::MoveTo { to });
        }
        self
    }

    pub fn line_to(&mut self, to: T) -> (r: &mut Self)
        ensures
            r.commands_view() == old(self).commands_view().push(Command::LineTo { to }),
            r.init_view() == old(self).init_view(),
            *final(self) == *final(r),
    {
        self.commands.push(Command::LineTo { to });
        self
    }

    pub fn cubic_bezier(&mut self, cp1: T, cp2: T, to: T) -> (r: &mut Self)
        ensures
            r.commands_view() == old(self).commands_view().push(
                Command::CubicBezier { cp1, cp2, to },
            ),
            r.init_view() == old(self).init_view(),
            *final(self) == *final(r),
    {
        self.commands.push(Command::CubicBezier { cp1, cp2, to });
        self
    }

    pub fn square_bezier(&mut self, cp: T, to: T) -> (r: &mut Self)
        ensures
            r.commands_view() == old(self).commands_view().push(Command::SquareBezier { cp, to }),
            r.init_view() == old(self).init_view(),
            *final(self) == *final(r),
    {
        self.commands.push(Command::SquareBezier { cp, to });
        self
    }

    pub fn arc(
        &mut self,
        radius: T,
        axis_rotation: S,
        large_arc_flag: bool,
        sweep_flag: bool,
        to: T,
    ) -> (r: &mut Self)
        ensures
            r.commands_view() == old(self).commands_view().push(
                Command::Arc { radius, axis_rotation, large_arc_flag, sweep_flag, to },
            ),
            r.init_view() == old(self).init_view(),
            *final(self) == *final(r),
    {
        self.commands.push(Command::Arc { radius, axis_rotation, large_arc_flag, sweep_flag, to });
        self
    }

    pub fn close_path(&mut self) -> (r: &mut Self)
        ensures
            r.commands_view() == old(self).commands_view().push(Command::ClosePath),
            r.init_view() == old(self).init_view(),
            *final(self) == *final(r),
    {
        self.commands.push(Command::ClosePath);
        self
    }
}

impl<T: Copy, S: Copy> Path<T, S> {
    /// The segments the path draws, in order.
    pub fn segments(&self) -> (r: Vec<Segment<T, S>>)
        ensures
            r@ == self.segments_spec(),
    {
        let mut start = self.init_pos;
        let mut cur = self.init_pos;
        let mut out: Vec<Segment<T, S>> = Vec::new();
        let mut i: usize = 0;
        assert(self.commands@.skip(0) =~= self.commands@);
        assert(out@ + self.segments_spec() =~= self.segments_spec());
        while i < self.commands.len()
            invariant
                i <= self.commands@.len(),
                out@ + scan(start, cur, self.commands@.skip(i as int)) == self.segments_spec(),
            decreases self.commands@.len() - i,
        {
            let ghost rest = self.commands@.skip(i as int);
            assert(rest.drop_first() =~= self.commands@.skip(i + 1));
            assert(rest[0] == self.commands@[i as int]);
            match self.commands[i] {
                Command::MoveTo { to } => {
                    start = to;
                    cur = to;
                },
                Command::LineTo { to } => {
                    out.push(Segment::Line { from: cur, to });
                    cur = to;
                },
                Command::CubicBezier { cp1, cp2, to } => {
                    out.push(Segment::CubicBezier { from: cur, cp1, cp2, to });
                    cur = to;
                },
                Command::SquareBezier { cp, to } => {
                    out.push(Segment::SquareBezier { from: cur, cp, to });
                    cur = to;
                },
                Command::Arc { radius, axis_rotation, large_arc_flag, sweep_flag, to } => {
                    out.push(
                        Segment::Arc { from: cur, radius, axis_rotation, large_arc_flag, sweep_flag, to },
                    );
                    cur = to;
                },
                Command::ClosePath => {
                    out.push(Segment::Line { from: cur, to: start });
                    cur = start;
                },
            }
            i = i + 1;
        }
        assert(self.commands@.skip(i as int) =~= Seq::<Command<T, S>>::empty());
        assert(out@ + Seq::<Segment<T, S>>::empty() =~= out@);
        out
    }
}

impl<T: Default, S> Path<T, S> {
    /// An empty path starting at `T::default()`.
    pub fn new() -> (r: Self)
        ensures
            r.commands_view().len() == 0,
    {
        Path { commands: Vec::new(), init_pos: T::default() }
    }
}

} // verus!
