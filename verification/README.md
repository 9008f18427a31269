# ssm-monitor

A terminal monitor for a fleet of SSM-managed instances: it lists the instances with
their CloudWatch alarms, keeps bookmarks, and starts a session on the selected instance.

The logic is a library written in Verus under `src/`. The program around it, which talks
to the terminal, the file system and the services, is under `app/`.

| Module | What it holds |
|--------|---------------|
| `app` | the state of the monitor: filters, order, selection, bookmarks, profile picker |
| `input` | what each key does in each mode |
| `update`, `coordinator` | messages between the monitor and its background loader, and the loader's steps |
| `fleet`, `loading` | the fleet put together from the reports of the services, page by page |
| `instance`, `alarm` | instances, alarms and what their states say |
| `favorites`, `profiles`, `names` | stored bookmarks and configured profiles |
| `session` | sessions on an instance |
| `ui`, `list_screen`, `detail_screen`, `help_screen`, `picker_screen`, `status_bar` | what is on the screen |
| `style`, `layout` | styled text and areas of the screen |
| `order`, `text`, `model`, `clock`, `filters`, `pane` | stable sorting, text, views, time, filters and lists |
| `laws` | the invariant of the monitor and what holds of it as a whole |

Each type has a mathematical view (`App` and `AppView`, `Step` and `StepView`), and each
function says in its `ensures` what it does in terms of the views. The functions named
`law_...` state what holds across functions.

What is taken on trust is marked `external_body` or `assume_specification`: a few
functions of the standard library in `text` and `clock`, and the division of the screen
by `ratatui` in `layout`.
