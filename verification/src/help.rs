//! The help the dashboard's help button shows.

use vstd::prelude::*;
use vstd::string::*;

verus! {

/// The title of the help.
pub open spec fn help_title_spec() -> Seq<char> {
    "How does qBot work?"@
}

/// The help text before the voice channel hint.
pub open spec fn help_head() -> Seq<char> {
    "## Joining and leaving the queue\nWhen you want to play, just click the **Join** button on the dashboard and pick the format you want to play."@
}

/// The hint shown to players who have voice auto-join on.
pub open spec fn help_vc_hint() -> Seq<char> {
    " You can also just hop into the queue voice channel and you'll be added automatically."@
}

/// The help text after the voice channel hint.
pub open spec fn help_tail() -> Seq<char> {
    "\nThis will add you to a queue for a set period of time and you'll retain this spot in the queue until the match starts or you leave. To leave the queue, simply click the **Leave** button on the dashboard.\n## How does the queue work?\nThink of it as a line to go on a rollercoaster at a carnival. The quota is the number of seats on the cart - it must always be full before the ride can start. Once enough people are in line to fill all the seats, those first people board the cart and the ride begins. If there are more people in queue than the cart can fit, they stay in line and wait for the next ride.\nWe can also have multiple formats (like 6v6 and 4v4), each with its own queue running independently. Even within a single format, if there are enough players, multiple matches can run at the same time - the bot will create more team channels and split players across them.\nAfter a match ends, those players return to the queue and the next group of players gets selected for the next match. Selection is mostly first-come-first-served, but the system ensures everyone gets a fair chance to play.\n## When do teams get made?\nOnce enough players join to fill a match, the bot generates balanced teams and shows a preview of it on the dashboard.\n## Where do we play?\nThe game starts when a runner presses the **Start** button. The bot then creates team voice channels and moves everyone to their team's channel. After the game ends, the runner ends the match via **End** and you'll be moved back to the queue channel.\n**## What happens during a match?\nThe dashboard updates live so you can always see who's in queue and what's happening. If something goes wrong, runners (trusted users who can manage the queue), admins or xCape can step in to help fix issues.\n\n**That's it!** The bot handles most things so you can focus on playing.\n**Questions or feedback?** Contact <@257898548773912576>"@
}

/// The title of the help.
pub fn help_title() -> (r: &'static str)
    ensures
        r@ == help_title_spec(),
{
    "How does qBot work?"
}

/// The help text: how the queue works, with the voice channel hint for
/// players who have voice auto-join on.
pub fn help_text(vc_auto_join: bool) -> (r: String)
    ensures
        r@ == help_head() + (if vc_auto_join { help_vc_hint() } else { Seq::empty() }) + help_tail(),
{
    let mut s = String::from_str("## Joining and leaving the queue\nWhen you want to play, just click the **Join** button on the dashboard and pick the format you want to play.");
    if vc_auto_join {
        s.append(" You can also just hop into the queue voice channel and you'll be added automatically.");
    }
    s.append("\nThis will add you to a queue for a set period of time and you'll retain this spot in the queue until the match starts or you leave. To leave the queue, simply click the **Leave** button on the dashboard.\n## How does the queue work?\nThink of it as a line to go on a rollercoaster at a carnival. The quota is the number of seats on the cart - it must always be full before the ride can start. Once enough people are in line to fill all the seats, those first people board the cart and the ride begins. If there are more people in queue than the cart can fit, they stay in line and wait for the next ride.\nWe can also have multiple formats (like 6v6 and 4v4), each with its own queue running independently. Even within a single format, if there are enough players, multiple matches can run at the same time - the bot will create more team channels and split players across them.\nAfter a match ends, those players return to the queue and the next group of players gets selected for the next match. Selection is mostly first-come-first-served, but the system ensures everyone gets a fair chance to play.\n## When do teams get made?\nOnce enough players join to fill a match, the bot generates balanced teams and shows a preview of it on the dashboard.\n## Where do we play?\nThe game starts when a runner presses the **Start** button. The bot then creates team voice channels and moves everyone to their team's channel. After the game ends, the runner ends the match via **End** and you'll be moved back to the queue channel.\n**## What happens during a match?\nThe dashboard updates live so you can always see who's in queue and what's happening. If something goes wrong, runners (trusted users who can manage the queue), admins or xCape can step in to help fix issues.\n\n**That's it!** The bot handles most things so you can focus on playing.\n**Questions or feedback?** Contact <@257898548773912576>");
    assert(s@ =~= help_head() + (if vc_auto_join { help_vc_hint() } else { Seq::<char>::empty() }) + help_tail());
    s
}

} // verus!
